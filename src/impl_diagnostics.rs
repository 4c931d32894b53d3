//! Diagnostics of impl methods checked against their trait, and the
//! collection of all type diagnostics.
use vstd::prelude::*;
use crate::diag::{
    is_sub, primary, primary_secondary, CompleteDiagnostic, DiagnosticPass, DynLazySpan,
    GlobalErrorCode, LabelStyle, Severity, SubDiagnostic, Trait,
};
use crate::hir_def::IdentId;
use crate::text::{join_comma, join_texts, kind_text, texts};
use crate::trait_diagnostics::{
    constraint_code, constraint_message, count_mismatch_text, ty_mismatch_text,
    TraitConstraintDiag,
};
use crate::ty_def::Kind;
use crate::ty_diagnostics::{
    trait_lower_code, trait_lower_message, ty_lower_code, ty_lower_message, TraitLowerDiag,
    TyLowerDiag,
};

verus! {

/// "method `m` is not defined in trait `t`".
pub open spec fn not_defined_text(m: Seq<char>, t: Seq<char>) -> Seq<char> {
    "method `"@ + m + "` is not defined in trait `"@ + t + "`"@
}

/// The names, separated by ", ".
pub open spec fn names_text(v: Seq<IdentId>) -> Seq<char> {
    join_texts(v.map_values(|n: IdentId| n@), ", "@)
}

/// The bounds, each in backquotes, separated by ", ".
pub open spec fn bounds_text(v: Seq<String>) -> Seq<char> {
    join_texts(v.map_values(|s: String| "`"@ + s@ + "`"@), ", "@)
}

#[derive(Debug, Clone, PartialEq, Eq, Hash)]
pub enum ImplDiag {
    ConflictMethodImpl { primary: DynLazySpan, conflict_with: DynLazySpan },
    MethodNotDefinedInTrait { primary: DynLazySpan, trait_: Trait, method_name: IdentId },
    /// The trait items left unimplemented, in order.
    NotAllTraitItemsImplemented { primary: DynLazySpan, not_implemented: Vec<IdentId> },
    MethodTypeParamNumMismatch { primary: DynLazySpan, expected: usize, given: usize },
    MethodTypeParamKindMismatch { primary: DynLazySpan, message: String },
    MethodArgNumMismatch { primary: DynLazySpan, expected: usize, given: usize },
    MethodArgTyMismatch { primary: DynLazySpan, message: String },
    MethodRetTyMismatch { primary: DynLazySpan, message: String },
    MethodStricterBound { primary: DynLazySpan, message: String },
}

pub open spec fn impl_code(d: ImplDiag) -> u16 {
    match d {
        ImplDiag::ConflictMethodImpl { .. } => 0,
        ImplDiag::MethodNotDefinedInTrait { .. } => 1,
        ImplDiag::NotAllTraitItemsImplemented { .. } => 2,
        ImplDiag::MethodTypeParamNumMismatch { .. } => 3,
        ImplDiag::MethodTypeParamKindMismatch { .. } => 4,
        ImplDiag::MethodArgNumMismatch { .. } => 5,
        ImplDiag::MethodArgTyMismatch { .. } => 6,
        ImplDiag::MethodRetTyMismatch { .. } => 7,
        ImplDiag::MethodStricterBound { .. } => 8,
    }
}

pub open spec fn impl_message(d: ImplDiag) -> Seq<char> {
    match d {
        ImplDiag::ConflictMethodImpl { .. } => "conflict method implementation"@,
        ImplDiag::MethodNotDefinedInTrait { trait_, method_name, .. } => not_defined_text(
            method_name@,
            trait_.name@,
        ),
        ImplDiag::NotAllTraitItemsImplemented { .. } => "not all trait methods are implemented"@,
        ImplDiag::MethodTypeParamNumMismatch { .. } => "trait method type parameter number mismatch"@,
        ImplDiag::MethodTypeParamKindMismatch { .. } => "trait method type parameter kind mismatch"@,
        ImplDiag::MethodArgNumMismatch { .. } => "trait method argument number mismatch"@,
        ImplDiag::MethodArgTyMismatch { .. } => "given argument type doesn't match the expected type required by trait"@,
        ImplDiag::MethodRetTyMismatch { .. } => "given return type doesn't match the expected type required by trait"@,
        ImplDiag::MethodStricterBound { .. } => "impl method has stricter bound than the declared method in the trait"@,
    }
}

/// The labels of an impl method diagnostic.
pub open spec fn impl_subs(d: ImplDiag, r: Seq<SubDiagnostic>) -> bool {
    match d {
        ImplDiag::ConflictMethodImpl { primary, conflict_with } => r.len() == 2 && is_sub(
            r[0],
            LabelStyle::Primary,
            "conflict method implementation"@,
            primary,
        ) && is_sub(
            r[1],
            LabelStyle::Secondary,
            "conflict with this method implementation"@,
            conflict_with,
        ),
        ImplDiag::MethodNotDefinedInTrait { primary, trait_, method_name } => r.len() == 2
            && is_sub(
            r[0],
            LabelStyle::Primary,
            not_defined_text(method_name@, trait_.name@),
            primary,
        ) && is_sub(r[1], LabelStyle::Secondary, "trait is defined here"@, trait_.name_span),
        ImplDiag::NotAllTraitItemsImplemented { primary, not_implemented } => r.len() == 1
            && is_sub(
            r[0],
            LabelStyle::Primary,
            "all required trait items must be implemented, missing: `"@ + names_text(
                not_implemented@,
            ) + "`"@,
            primary,
        ),
        ImplDiag::MethodTypeParamNumMismatch { primary, expected, given } => r.len() == 1
            && is_sub(
            r[0],
            LabelStyle::Primary,
            count_mismatch_text(expected, " type parameters"@, given),
            primary,
        ),
        ImplDiag::MethodTypeParamKindMismatch { primary, message } => r.len() == 1 && is_sub(
            r[0],
            LabelStyle::Primary,
            message@,
            primary,
        ),
        ImplDiag::MethodArgNumMismatch { primary, expected, given } => r.len() == 1 && is_sub(
            r[0],
            LabelStyle::Primary,
            count_mismatch_text(expected, " arguments"@, given),
            primary,
        ),
        ImplDiag::MethodArgTyMismatch { primary, message } => r.len() == 1 && is_sub(
            r[0],
            LabelStyle::Primary,
            message@,
            primary,
        ),
        ImplDiag::MethodRetTyMismatch { primary, message } => r.len() == 1 && is_sub(
            r[0],
            LabelStyle::Primary,
            message@,
            primary,
        ),
        ImplDiag::MethodStricterBound { primary, message } => r.len() == 1 && is_sub(
            r[0],
            LabelStyle::Primary,
            message@,
            primary,
        ),
    }
}

fn not_defined_message(method_name: &IdentId, trait_: &Trait) -> (r: String)
    ensures
        r@ == not_defined_text(method_name@, trait_.name@),
{
    let mut s = "method `".to_string();
    s.append(method_name.data().as_str());
    s.append("` is not defined in trait `");
    s.append(trait_.name.data().as_str());
    s.append("`");
    s
}

impl ImplDiag {
    pub fn conflict_method_impl(primary: DynLazySpan, conflict_with: DynLazySpan) -> (r: Self)
        ensures
            r == (ImplDiag::ConflictMethodImpl { primary, conflict_with }),
    {
        Self::ConflictMethodImpl { primary, conflict_with }
    }

    pub fn method_not_defined_in_trait(primary: DynLazySpan, trait_: Trait, method_name: IdentId) -> (r: Self)
        ensures
            r == (ImplDiag::MethodNotDefinedInTrait { primary, trait_, method_name }),
    {
        Self::MethodNotDefinedInTrait { primary, trait_, method_name }
    }

    pub fn not_all_trait_items_implemented(primary: DynLazySpan, not_implemented: Vec<IdentId>) -> (r: Self)
        ensures
            r == (ImplDiag::NotAllTraitItemsImplemented { primary, not_implemented }),
    {
        Self::NotAllTraitItemsImplemented { primary, not_implemented }
    }

    pub fn method_param_num_mismatch(primary: DynLazySpan, expected: usize, given: usize) -> (r: Self)
        ensures
            r == (ImplDiag::MethodTypeParamNumMismatch { primary, expected, given }),
    {
        Self::MethodTypeParamNumMismatch { primary, expected, given }
    }

    pub fn method_arg_num_mismatch(primary: DynLazySpan, expected: usize, given: usize) -> (r: Self)
        ensures
            r == (ImplDiag::MethodArgNumMismatch { primary, expected, given }),
    {
        Self::MethodArgNumMismatch { primary, expected, given }
    }

    /// An argument of the type written `given` where the trait has the type
    /// written `expected`.
    pub fn method_arg_ty_mismatch(primary: DynLazySpan, expected: &str, given: &str) -> (r: Self)
        ensures
            r is MethodArgTyMismatch,
            r->MethodArgTyMismatch_primary == primary,
            r->MethodArgTyMismatch_message@ == ty_mismatch_text(expected@, given@),
    {
        let mut message = "expected `".to_string();
        message.append(expected);
        message.append("` type, but the given type is `");
        message.append(given);
        message.append("`");
        Self::MethodArgTyMismatch { primary, message }
    }

    /// A return type written `given` where the trait has the type written
    /// `expected`.
    pub fn method_ret_type_mismatch(primary: DynLazySpan, expected: &str, given: &str) -> (r: Self)
        ensures
            r is MethodRetTyMismatch,
            r->MethodRetTyMismatch_primary == primary,
            r->MethodRetTyMismatch_message@ == ty_mismatch_text(expected@, given@),
    {
        let mut message = "expected `".to_string();
        message.append(expected);
        message.append("` type, but the given type is `");
        message.append(given);
        message.append("`");
        Self::MethodRetTyMismatch { primary, message }
    }

    pub fn method_param_kind_mismatch(primary: DynLazySpan, expected: &Kind, given: &Kind) -> (r: Self)
        ensures
            r is MethodTypeParamKindMismatch,
            r->MethodTypeParamKindMismatch_primary == primary,
            r->MethodTypeParamKindMismatch_message@ == "expected `"@ + kind_text(*expected)
                + "` kind, but the given type has `"@ + kind_text(*given) + "` kind"@,
    {
        let e = expected.display();
        let g = given.display();
        let mut message = "expected `".to_string();
        message.append(e.as_str());
        message.append("` kind, but the given type has `");
        message.append(g.as_str());
        message.append("` kind");
        Self::MethodTypeParamKindMismatch { primary, message }
    }

    /// The impl method has the bounds written in `stricter_bounds`, which
    /// the trait's method does not.
    pub fn method_stricter_bound(primary: DynLazySpan, stricter_bounds: &Vec<String>) -> (r: Self)
        ensures
            r is MethodStricterBound,
            r->MethodStricterBound_primary == primary,
            r->MethodStricterBound_message@
                == "method has stricter bounds than the declared method in the trait: "@
                + bounds_text(stricter_bounds@),
    {
        let mut quoted: Vec<String> = Vec::new();
        let mut i: usize = 0;
        while i < stricter_bounds.len()
            invariant
                i <= stricter_bounds@.len(),
                texts(quoted@) == stricter_bounds@.take(i as int).map_values(
                    |s: String| "`"@ + s@ + "`"@,
                ),
            decreases stricter_bounds@.len() - i,
        {
            let mut q = "`".to_string();
            q.append(stricter_bounds[i].as_str());
            q.append("`");
            let ghost prev = quoted@;
            quoted.push(q);
            proof {
                assert(texts(quoted@) =~= texts(prev).push(q@));
                assert(stricter_bounds@.take(i + 1).map_values(|s: String| "`"@ + s@ + "`"@)
                    =~= stricter_bounds@.take(i as int).map_values(|s: String| "`"@ + s@ + "`"@).push(
                    "`"@ + stricter_bounds@[i as int]@ + "`"@));
            }
            i = i + 1;
        }
        proof {
            assert(stricter_bounds@.take(i as int) =~= stricter_bounds@);
        }
        let joined = join_comma(&quoted);
        let mut message = "method has stricter bounds than the declared method in the trait: ".to_string();
        message.append(joined.as_str());
        Self::MethodStricterBound { primary, message }
    }

    pub fn local_code(&self) -> (r: u16)
        ensures
            r == impl_code(*self),
    {
        match self {
            Self::ConflictMethodImpl { .. } => 0,
            Self::MethodNotDefinedInTrait { .. } => 1,
            Self::NotAllTraitItemsImplemented { .. } => 2,
            Self::MethodTypeParamNumMismatch { .. } => 3,
            Self::MethodTypeParamKindMismatch { .. } => 4,
            Self::MethodArgNumMismatch { .. } => 5,
            Self::MethodArgTyMismatch { .. } => 6,
            Self::MethodRetTyMismatch { .. } => 7,
            Self::MethodStricterBound { .. } => 8,
        }
    }

    pub fn message(&self) -> (r: String)
        ensures
            r@ == impl_message(*self),
    {
        match self {
            Self::ConflictMethodImpl { .. } => "conflict method implementation".to_string(),
            Self::MethodNotDefinedInTrait { trait_, method_name, .. } => not_defined_message(
                method_name,
                trait_,
            ),
            Self::NotAllTraitItemsImplemented { .. } => {
                "not all trait methods are implemented".to_string()
            },
            Self::MethodTypeParamNumMismatch { .. } => {
                "trait method type parameter number mismatch".to_string()
            },
            Self::MethodTypeParamKindMismatch { .. } => {
                "trait method type parameter kind mismatch".to_string()
            },
            Self::MethodArgNumMismatch { .. } => {
                "trait method argument number mismatch".to_string()
            },
            Self::MethodArgTyMismatch { .. } => {
                "given argument type doesn't match the expected type required by trait".to_string()
            },
            Self::MethodRetTyMismatch { .. } => {
                "given return type doesn't match the expected type required by trait".to_string()
            },
            Self::MethodStricterBound { .. } => {
                "impl method has stricter bound than the declared method in the trait".to_string()
            },
        }
    }

    pub fn sub_diags(&self) -> (r: Vec<SubDiagnostic>)
        ensures
            impl_subs(*self, r@),
    {
        match self {
            Self::ConflictMethodImpl { primary, conflict_with } => primary_secondary(
                "conflict method implementation".to_string(),
                *primary,
                "conflict with this method implementation".to_string(),
                *conflict_with,
            ),
            Self::MethodNotDefinedInTrait { primary, trait_, method_name } => primary_secondary(
                not_defined_message(method_name, trait_),
                *primary,
                "trait is defined here".to_string(),
                trait_.name_span,
            ),
            Self::NotAllTraitItemsImplemented { primary: span, not_implemented } => {
                let mut names: Vec<String> = Vec::new();
                let mut i: usize = 0;
                while i < not_implemented.len()
                    invariant
                        i <= not_implemented@.len(),
                        texts(names@) == not_implemented@.take(i as int).map_values(
                            |n: IdentId| n@,
                        ),
                    decreases not_implemented@.len() - i,
                {
                    let name = not_implemented[i].data().clone();
                    let ghost prev = names@;
                    names.push(name);
                    proof {
                        assert(texts(names@) =~= texts(prev).push(name@));
                        assert(not_implemented@.take(i + 1).map_values(|n: IdentId| n@)
                            =~= not_implemented@.take(i as int).map_values(|n: IdentId| n@).push(
                            not_implemented@[i as int]@));
                    }
                    i = i + 1;
                }
                proof {
                    assert(not_implemented@.take(i as int) =~= not_implemented@);
                }
                let joined = join_comma(&names);
                let mut text = "all required trait items must be implemented, missing: `".to_string();
                text.append(joined.as_str());
                text.append("`");
                primary(text, *span)
            },
            Self::MethodTypeParamNumMismatch { primary: span, expected, given } => primary(
                crate::trait_diagnostics::count_mismatch_message(*expected, " type parameters", *given),
                *span,
            ),
            Self::MethodTypeParamKindMismatch { primary: span, message } => primary(
                message.clone(),
                *span,
            ),
            Self::MethodArgNumMismatch { primary: span, expected, given } => primary(
                crate::trait_diagnostics::count_mismatch_message(*expected, " arguments", *given),
                *span,
            ),
            Self::MethodArgTyMismatch { primary: span, message } => primary(message.clone(), *span),
            Self::MethodRetTyMismatch { primary: span, message } => primary(message.clone(), *span),
            Self::MethodStricterBound { primary: span, message } => primary(message.clone(), *span),
        }
    }

    pub fn severity(&self) -> (r: Severity)
        ensures
            r == Severity::Error,
    {
        Severity::Error
    }

    pub fn error_code(&self) -> (r: GlobalErrorCode)
        ensures
            r == (GlobalErrorCode { pass: DiagnosticPass::TraitSatisfaction, local_code: impl_code(*self) }),
    {
        GlobalErrorCode::new(DiagnosticPass::TraitSatisfaction, self.local_code())
    }

    /// The diagnostic, ready to be rendered.
    pub fn to_complete(&self) -> (r: CompleteDiagnostic)
        ensures
            r.severity == Severity::Error,
            r.message@ == impl_message(*self),
            impl_subs(*self, r.sub_diagnostics@),
            r.notes@.len() == 0,
            r.error_code == (GlobalErrorCode { pass: DiagnosticPass::TraitSatisfaction, local_code: impl_code(*self) }),
    {
        let severity = self.severity();
        let error_code = self.error_code();
        let message = self.message();
        let sub_diags = self.sub_diags();
        CompleteDiagnostic::new(severity, message, sub_diags, Vec::new(), error_code)
    }
}

/// Every diagnostic of type and trait definitions.
#[derive(Debug, Clone, PartialEq, Eq, Hash)]
pub enum TyDiagCollection {
    Ty(TyLowerDiag),
    Satisfaction(TraitConstraintDiag),
    TraitLower(TraitLowerDiag),
    Impl(ImplDiag),
}

/// The error code of a diagnostic of the collection.
pub open spec fn collection_code(d: TyDiagCollection) -> GlobalErrorCode {
    match d {
        TyDiagCollection::Ty(d) => GlobalErrorCode { pass: DiagnosticPass::TypeDefinition, local_code: ty_lower_code(d) },
        TyDiagCollection::Satisfaction(d) => GlobalErrorCode { pass: DiagnosticPass::TraitSatisfaction, local_code: constraint_code(d) },
        TyDiagCollection::TraitLower(d) => GlobalErrorCode { pass: DiagnosticPass::ImplTraitDefinition, local_code: trait_lower_code(d) },
        TyDiagCollection::Impl(d) => GlobalErrorCode { pass: DiagnosticPass::TraitSatisfaction, local_code: impl_code(d) },
    }
}

/// The message of a diagnostic of the collection.
pub open spec fn collection_message(d: TyDiagCollection) -> Seq<char> {
    match d {
        TyDiagCollection::Ty(d) => ty_lower_message(d),
        TyDiagCollection::Satisfaction(d) => constraint_message(d),
        TyDiagCollection::TraitLower(d) => trait_lower_message(d),
        TyDiagCollection::Impl(d) => impl_message(d),
    }
}

impl TyDiagCollection {
    /// The diagnostic, ready to be rendered, whichever kind it is.
    pub fn to_voucher(&self) -> (r: CompleteDiagnostic)
        ensures
            r.severity == Severity::Error,
            r.message@ == collection_message(*self),
            r.error_code == collection_code(*self),
            r.notes@.len() == 0,
            match *self {
                TyDiagCollection::Ty(d) => crate::ty_diagnostics::ty_lower_subs(d, r.sub_diagnostics@),
                TyDiagCollection::Satisfaction(d) => crate::trait_diagnostics::constraint_subs(
                    d,
                    r.sub_diagnostics@,
                ),
                TyDiagCollection::TraitLower(d) => crate::ty_diagnostics::trait_lower_subs(
                    d,
                    r.sub_diagnostics@,
                ),
                TyDiagCollection::Impl(d) => impl_subs(d, r.sub_diagnostics@),
            },
    {
        match self {
            TyDiagCollection::Ty(d) => d.to_complete(),
            TyDiagCollection::Satisfaction(d) => d.to_complete(),
            TyDiagCollection::TraitLower(d) => d.to_complete(),
            TyDiagCollection::Impl(d) => d.to_complete(),
        }
    }
}

impl From<TyLowerDiag> for TyDiagCollection {
    fn from(d: TyLowerDiag) -> (r: Self) {
        TyDiagCollection::Ty(d)
    }
}

impl vstd::std_specs::convert::FromSpecImpl<TyLowerDiag> for TyDiagCollection {
    open spec fn obeys_from_spec() -> bool {
        true
    }

    open spec fn from_spec(d: TyLowerDiag) -> Self {
        TyDiagCollection::Ty(d)
    }
}

impl From<TraitConstraintDiag> for TyDiagCollection {
    fn from(d: TraitConstraintDiag) -> (r: Self) {
        TyDiagCollection::Satisfaction(d)
    }
}

impl vstd::std_specs::convert::FromSpecImpl<TraitConstraintDiag> for TyDiagCollection {
    open spec fn obeys_from_spec() -> bool {
        true
    }

    open spec fn from_spec(d: TraitConstraintDiag) -> Self {
        TyDiagCollection::Satisfaction(d)
    }
}

impl From<TraitLowerDiag> for TyDiagCollection {
    fn from(d: TraitLowerDiag) -> (r: Self) {
        TyDiagCollection::TraitLower(d)
    }
}

impl vstd::std_specs::convert::FromSpecImpl<TraitLowerDiag> for TyDiagCollection {
    open spec fn obeys_from_spec() -> bool {
        true
    }

    open spec fn from_spec(d: TraitLowerDiag) -> Self {
        TyDiagCollection::TraitLower(d)
    }
}

impl From<ImplDiag> for TyDiagCollection {
    fn from(d: ImplDiag) -> (r: Self) {
        TyDiagCollection::Impl(d)
    }
}

impl vstd::std_specs::convert::FromSpecImpl<ImplDiag> for TyDiagCollection {
    open spec fn obeys_from_spec() -> bool {
        true
    }

    open spec fn from_spec(d: ImplDiag) -> Self {
        TyDiagCollection::Impl(d)
    }
}

/// The diagnostics of ADT definitions.
pub struct AdtDefDiagAccumulator(pub TyDiagCollection);

/// The diagnostics of trait definitions.
pub struct TraitDefDiagAccumulator(pub TyDiagCollection);

/// The diagnostics of trait implementations.
pub struct ImplTraitDefDiagAccumulator(pub TyDiagCollection);

/// The diagnostics of inherent impls.
pub struct ImplDefDiagAccumulator(pub TyDiagCollection);

/// The diagnostics of type alias definitions.
pub struct TypeAliasDefDiagAccumulator(pub TyDiagCollection);

} // verus!
