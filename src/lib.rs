//! Type representation, unification store and canonicalization for the
//! type checker of a generics-and-traits language, together with the
//! diagnostic payloads that type lowering and trait solving report.
use vstd::prelude::*;

pub mod ty_def;
pub mod store;
pub mod fold;
pub mod unify;
pub mod subst;
pub mod canonical;
pub mod laws;
pub mod solve;
pub mod text;
pub mod hir_def;
pub mod diag;
pub mod infer_diagnostics;
pub mod ty_diagnostics;
pub mod trait_diagnostics;
pub mod impl_diagnostics;

verus! {

} // verus!
