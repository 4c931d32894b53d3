//! Structural folding: a rewrite of types defined by its rule on variable
//! leaves. Every other shape is rewritten generically, each part folded
//! with the same folder and the result interned again.
use vstd::prelude::*;
use crate::store::{children_below, extends, lemma_tree_stable, nodes_wf, tree, valid, TyStore};
use crate::ty_def::{is_var, ConstTyData, Ty, TyData, TyId};

verus! {

/// A rewrite of types by a rule on their variable leaves (type variables
/// and const-type variables alike).
pub trait TyFolder: Sized {
    /// The model of the folder's state.
    type State;

    spec fn state(&self) -> Self::State;

    /// What the folder's handles need of the store `s`.
    spec fn inv(&self, s: Seq<TyData>) -> bool;

    /// The rule: the image of the variable leaf `t`, and the state after.
    spec fn leaf(st: Self::State, t: Ty) -> (Ty, Self::State);

    /// What the rule needs to apply to `t`.
    spec fn leaf_ok(st: Self::State, t: Ty) -> bool;

    proof fn lemma_inv_stable(&self, s1: Seq<TyData>, s2: Seq<TyData>)
        requires
            extends(s1, s2),
            self.inv(s1),
        ensures
            self.inv(s2),
    ;

    /// Applies the rule to the variable leaf `ty`.
    fn fold_var(&mut self, db: &mut TyStore, ty: TyId) -> (r: TyId)
        requires
            nodes_wf(old(db)@),
            valid(old(db)@, ty),
            is_var(tree(old(db)@, ty)),
            old(self).inv(old(db)@),
            Self::leaf_ok(old(self).state(), tree(old(db)@, ty)),
        ensures
            nodes_wf(final(db)@),
            extends(old(db)@, final(db)@),
            valid(final(db)@, r),
            final(self).inv(final(db)@),
            (tree(final(db)@, r), final(self).state()) == Self::leaf(
                old(self).state(),
                tree(old(db)@, ty),
            ),
    ;
}

/// The type folded, left to right, and the state after.
pub open spec fn fold_spec<F: TyFolder>(st: F::State, t: Ty) -> (Ty, F::State)
    decreases t,
{
    match t {
        Ty::App(a, b) => {
            let (a2, st1) = fold_spec::<F>(st, *a);
            let (b2, st2) = fold_spec::<F>(st1, *b);
            (Ty::App(Box::new(a2), Box::new(b2)), st2)
        },
        _ => if is_var(t) {
            F::leaf(st, t)
        } else {
            (t, st)
        },
    }
}

/// The rule applies at every leaf the fold meets.
pub open spec fn fold_ok<F: TyFolder>(st: F::State, t: Ty) -> bool
    decreases t,
{
    match t {
        Ty::App(a, b) => fold_ok::<F>(st, *a) && fold_ok::<F>(fold_spec::<F>(st, *a).1, *b),
        _ => is_var(t) ==> F::leaf_ok(st, t),
    }
}

/// Folds `ty` with `f`.
pub fn fold_ty<F: TyFolder>(f: &mut F, db: &mut TyStore, ty: TyId) -> (r: TyId)
    requires
        nodes_wf(old(db)@),
        valid(old(db)@, ty),
        old(f).inv(old(db)@),
        fold_ok::<F>(old(f).state(), tree(old(db)@, ty)),
    ensures
        nodes_wf(final(db)@),
        extends(old(db)@, final(db)@),
        valid(final(db)@, r),
        final(f).inv(final(db)@),
        (tree(final(db)@, r), final(f).state()) == fold_spec::<F>(old(f).state(), tree(old(db)@, ty)),
    decreases ty.0,
{
    let ghost s0 = db@;
    proof {
        assert(children_below(s0[ty.0 as int], ty.0 as nat));
    }
    match db.data(ty) {
        TyData::TyApp(a, b) => {
            let a2 = fold_ty(f, db, a);
            let ghost s1 = db@;
            proof {
                lemma_tree_stable(s0, s1, b);
            }
            let b2 = fold_ty(f, db, b);
            let ghost s2 = db@;
            proof {
                lemma_tree_stable(s1, s2, a2);
            }
            let r = db.app(a2, b2);
            proof {
                f.lemma_inv_stable(s2, db@);
            }
            r
        },
        TyData::TyVar(_) => f.fold_var(db, ty),
        TyData::ConstTy(ConstTyData::TyVar(_, _)) => f.fold_var(db, ty),
        _ => ty,
    }
}

} // verus!
