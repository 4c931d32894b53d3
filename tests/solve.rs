use hir_analysis::diag::DynLazySpan;
use hir_analysis::solve::{bound_diagnostic, check_bound, BoundCheck, Goal, ImplRule};
use hir_analysis::store::TyStore;
use hir_analysis::trait_diagnostics::TraitConstraintDiag;
use hir_analysis::ty_def::{InferenceKey, Kind, TyVar, TyVarSort};

const TRAIT: u32 = 1;
const OTHER: u32 = 2;

#[test]
fn self_requiring_bound_reports_infinite_recursion() {
    let mut db = TyStore::new();
    let t = db.var(TyVar { sort: TyVarSort::General, kind: Kind::Star, key: InferenceKey(0) });
    let goal = Goal { ty: t, trait_id: TRAIT };
    let rules = vec![ImplRule { head: goal, requires: vec![goal] }];
    let outcome = check_bound(&rules, goal);
    assert_eq!(outcome, BoundCheck::InfiniteRecursion(goal));
    let diag = bound_diagnostic(DynLazySpan(3), outcome, "T", "Trait").unwrap();
    assert_eq!(diag.local_code(), 4);
    match diag {
        TraitConstraintDiag::InfiniteBoundRecursion(span, msg) => {
            assert_eq!(span, DynLazySpan(3));
            assert_eq!(msg, "infinite evaluation recursion occurs when checking `T: Trait` ");
        }
        other => panic!("unexpected {:?}", other),
    }
}

#[test]
fn mutually_requiring_bounds_terminate() {
    let mut db = TyStore::new();
    let t = db.base(7, Kind::Star);
    let a = Goal { ty: t, trait_id: TRAIT };
    let b = Goal { ty: t, trait_id: OTHER };
    let rules = vec![
        ImplRule { head: a, requires: vec![b] },
        ImplRule { head: b, requires: vec![a] },
    ];
    assert_eq!(check_bound(&rules, a), BoundCheck::InfiniteRecursion(a));
    assert_eq!(check_bound(&rules, b), BoundCheck::InfiniteRecursion(b));
}

#[test]
fn satisfied_and_unsatisfied_bounds() {
    let mut db = TyStore::new();
    let int = db.base(1, Kind::Star);
    let o = db.base(2, Kind::Star);
    let oi = db.app(o, int);
    let base = Goal { ty: int, trait_id: TRAIT };
    let wrapped = Goal { ty: oi, trait_id: TRAIT };
    let missing = Goal { ty: int, trait_id: OTHER };
    let rules = vec![
        ImplRule { head: base, requires: vec![] },
        ImplRule { head: wrapped, requires: vec![base, base] },
    ];
    assert_eq!(check_bound(&rules, wrapped), BoundCheck::Satisfied);
    assert_eq!(check_bound(&rules, missing), BoundCheck::NotSatisfied(missing));
    let needs_missing = vec![ImplRule { head: wrapped, requires: vec![base, missing] }];
    assert_eq!(check_bound(&needs_missing, wrapped), BoundCheck::NotSatisfied(base));
    assert!(bound_diagnostic(DynLazySpan(0), BoundCheck::Satisfied, "i32", "Trait").is_none());
    let d = bound_diagnostic(DynLazySpan(0), BoundCheck::NotSatisfied(missing), "i32", "Other").unwrap();
    assert_eq!(d.sub_diags()[0].message, "`i32` doesn't implement `Other`");
}
