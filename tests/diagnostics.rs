use hir_analysis::diag::{DiagnosticPass, DynLazySpan, ImplTrait, LabelStyle, Severity, Trait, TypeAlias};
use hir_analysis::hir_def::{IdentId, Partial};
use hir_analysis::impl_diagnostics::{ImplDiag, TyDiagCollection};
use hir_analysis::infer_diagnostics;
use hir_analysis::trait_diagnostics::TraitConstraintDiag;
use hir_analysis::ty_def::Kind;
use hir_analysis::ty_diagnostics::{TraitLowerDiag, TyLowerDiag};

fn star_to_star() -> Kind {
    Kind::Abs(Box::new(Kind::Star), Box::new(Kind::Star))
}

#[test]
fn kinds_are_written_with_arrows() {
    assert_eq!(Kind::Star.display(), "*");
    assert_eq!(star_to_star().display(), "(* -> *)");
    assert_eq!(Kind::Any.display(), "Any");
}

#[test]
fn body_type_lowering_diagnostics() {
    let d = infer_diagnostics::TyLowerDiag::not_fully_applied_type(DynLazySpan(4));
    assert_eq!(d.local_code(), 1);
    let c = d.to_complete();
    assert_eq!(c.message, "expected fully applied type");
    assert_eq!(c.severity, Severity::Error);
    assert_eq!(c.error_code.pass, DiagnosticPass::TypeDefinition);
    assert_eq!(c.sub_diagnostics.len(), 1);
    assert_eq!(c.sub_diagnostics[0].message, "expected fully applied type here");
    assert_eq!(c.sub_diagnostics[0].span, DynLazySpan(4));
    let a = infer_diagnostics::TyLowerDiag::assoc_ty(DynLazySpan(1));
    assert_eq!(a.local_code(), 2);
    assert_eq!(a.message(), "associated type is not supported ");
    assert_eq!(infer_diagnostics::TyLowerDiag::invalid_type(DynLazySpan(1)).local_code(), 0);
}

#[test]
fn invalid_type_arg_kind_messages() {
    let d = TyLowerDiag::invalid_type_arg_kind(DynLazySpan(2), Some(star_to_star()), "i32", &Kind::Star);
    match &d {
        TyLowerDiag::InvalidTypeArgKind(span, msg) => {
            assert_eq!(*span, DynLazySpan(2));
            assert_eq!(msg, "expected `(* -> *)` kind, but `i32` has `*` kind");
        }
        other => panic!("unexpected {:?}", other),
    }
    assert_eq!(d.local_code(), 1);
    let subs = d.sub_diags();
    assert_eq!(subs[0].message, "expected `(* -> *)` kind, but `i32` has `*` kind");
    let d = TyLowerDiag::invalid_type_arg_kind(DynLazySpan(2), None, "i32", &Kind::Star);
    assert!(matches!(&d, TyLowerDiag::InvalidTypeArgKind(_, m) if m == "too many generic arguments"));
}

#[test]
fn type_alias_diagnostics() {
    let alias = TypeAlias { n_generic_params: 3, span: DynLazySpan(10), alias_span: DynLazySpan(11) };
    let d = TyLowerDiag::unbound_type_alias_param(DynLazySpan(5), alias, 1);
    assert_eq!(d.local_code(), 3);
    let subs = d.sub_diags();
    assert_eq!(subs.len(), 2);
    assert_eq!(subs[0].message, "expected at least 3 arguments here");
    assert_eq!(subs[0].style, LabelStyle::Primary);
    assert_eq!(subs[1].message, "type alias defined here");
    assert_eq!(subs[1].span, DynLazySpan(10));
    let other = TypeAlias { n_generic_params: 0, span: DynLazySpan(20), alias_span: DynLazySpan(21) };
    let cycle = TyLowerDiag::TypeAliasCycle { primary: DynLazySpan(6), cycle: vec![alias, other] };
    let subs = cycle.sub_diags();
    assert_eq!(subs.len(), 3);
    assert_eq!(subs[0].message, "cycle happens here");
    assert_eq!(subs[1].span, DynLazySpan(11));
    assert_eq!(subs[2].span, DynLazySpan(21));
    assert_eq!(subs[2].style, LabelStyle::Secondary);
    assert_eq!(cycle.to_complete().message, "recursive type alias cycle is detected");
}

#[test]
fn recursive_type_and_kind_bounds() {
    let d = TyLowerDiag::recursive_type(DynLazySpan(1), DynLazySpan(2));
    assert_eq!(d.local_code(), 2);
    let subs = d.sub_diags();
    assert_eq!(subs[1].message, "recursion occurs here");
    let k = TyLowerDiag::inconsistent_kind_bound(DynLazySpan(3), "T", &Kind::Star, &star_to_star());
    assert!(matches!(&k, TyLowerDiag::InconsistentKindBound(_, m)
        if m == "`T` is already declared with `*` kind, but found `(* -> *)` kind here"));
    assert_eq!(k.message(), "duplicate type bound is not allowed.");
    assert_eq!(TyLowerDiag::KindBoundNotAllowed(DynLazySpan(0)).local_code(), 6);
    assert_eq!(TyLowerDiag::assoc_ty(DynLazySpan(0)).local_code(), 7);
    assert_eq!(TyLowerDiag::not_fully_applied_type(DynLazySpan(0)).local_code(), 0);
}

#[test]
fn trait_lowering_diagnostics() {
    let i1 = ImplTrait { ty_span: DynLazySpan(1), trait_ref_span: DynLazySpan(2) };
    let i2 = ImplTrait { ty_span: DynLazySpan(3), trait_ref_span: DynLazySpan(4) };
    let e = TraitLowerDiag::external_trait_for_external_type(i1);
    assert_eq!(e, TraitLowerDiag::ExternalTraitForExternalType(DynLazySpan(2)));
    let c = TraitLowerDiag::conflict_impl(i1, i2);
    assert_eq!(c.local_code(), 1);
    let done = c.to_complete();
    assert_eq!(done.error_code.pass, DiagnosticPass::ImplTraitDefinition);
    assert_eq!(done.sub_diagnostics[1].message, "conflict with this trait implementation");
    assert_eq!(done.sub_diagnostics[1].span, DynLazySpan(3));
}

#[test]
fn trait_constraint_diagnostics() {
    let k = TraitConstraintDiag::kind_mismatch(DynLazySpan(1), &star_to_star(), "i32", &Kind::Star);
    assert_eq!(k.local_code(), 2);
    assert_eq!(k.message(), "given trait argument kind mismatch");
    let n = TraitConstraintDiag::trait_arg_num_mismatch(DynLazySpan(1), 2, 10);
    assert_eq!(n.sub_diags()[0].message, "expected 2 arguments here, but 10 given");
    let b = TraitConstraintDiag::trait_bound_not_satisfied(DynLazySpan(1), "Foo", "Bar");
    assert_eq!(b.sub_diags()[0].message, "`Foo` doesn't implement `Bar`");
    let r = TraitConstraintDiag::infinite_bound_recursion(DynLazySpan(1), "T", "Trait");
    assert_eq!(r.local_code(), 4);
    assert_eq!(r.sub_diags()[0].message, "infinite evaluation recursion occurs when checking `T: Trait` ");
    let c = TraitConstraintDiag::concrete_type_bound(DynLazySpan(1), "i32");
    assert_eq!(c.sub_diags()[0].message, "`i32` is a concrete type");
    assert_eq!(c.to_complete().error_code.local_code, 5);
}

#[test]
fn impl_method_diagnostics() {
    let t = Trait { name: IdentId::new("Show".to_string()), name_span: DynLazySpan(9) };
    let d = ImplDiag::method_not_defined_in_trait(DynLazySpan(1), t, IdentId::new("fmt".to_string()));
    assert_eq!(d.message(), "method `fmt` is not defined in trait `Show`");
    assert_eq!(d.sub_diags()[1].span, DynLazySpan(9));
    let m = ImplDiag::not_all_trait_items_implemented(
        DynLazySpan(1),
        vec![IdentId::new("a".to_string()), IdentId::new("b".to_string())],
    );
    assert_eq!(m.sub_diags()[0].message, "all required trait items must be implemented, missing: `a, b`");
    let s = ImplDiag::method_stricter_bound(DynLazySpan(1), &vec!["T: Eq".to_string(), "U: Ord".to_string()]);
    assert!(matches!(&s, ImplDiag::MethodStricterBound { message, .. }
        if message == "method has stricter bounds than the declared method in the trait: `T: Eq`, `U: Ord`"));
    let none = ImplDiag::method_stricter_bound(DynLazySpan(1), &vec![]);
    assert!(matches!(&none, ImplDiag::MethodStricterBound { message, .. }
        if message == "method has stricter bounds than the declared method in the trait: "));
    let a = ImplDiag::method_arg_ty_mismatch(DynLazySpan(1), "i32", "bool");
    assert_eq!(a.sub_diags()[0].message, "expected `i32` type, but the given type is `bool`");
    assert_eq!(a.local_code(), 6);
    let r = ImplDiag::method_ret_type_mismatch(DynLazySpan(1), "u8", "u16");
    assert_eq!(r.local_code(), 7);
    assert_eq!(r.sub_diags()[0].message, "expected `u8` type, but the given type is `u16`");
    let k = ImplDiag::method_param_kind_mismatch(DynLazySpan(1), &Kind::Star, &star_to_star());
    assert_eq!(k.sub_diags()[0].message, "expected `*` kind, but the given type has `(* -> *)` kind");
    let p = ImplDiag::method_param_num_mismatch(DynLazySpan(1), 1, 2);
    assert_eq!(p.sub_diags()[0].message, "expected 1 type parameters here, but 2 given");
    assert_eq!(ImplDiag::method_arg_num_mismatch(DynLazySpan(1), 3, 0).local_code(), 5);
    assert_eq!(ImplDiag::conflict_method_impl(DynLazySpan(1), DynLazySpan(2)).local_code(), 0);
}

#[test]
fn collection_dispatches() {
    let c: TyDiagCollection = TraitLowerDiag::CyclicSuperTraits(DynLazySpan(1)).into();
    let v = c.to_voucher();
    assert_eq!(v.message, "cyclic super traits are not allowed");
    assert_eq!(v.error_code.local_code, 2);
    let c: TyDiagCollection = ImplDiag::conflict_method_impl(DynLazySpan(1), DynLazySpan(2)).into();
    assert_eq!(c.to_voucher().error_code.pass, DiagnosticPass::TraitSatisfaction);
}

#[test]
fn identifiers_and_partial_nodes() {
    assert!(IdentId::new("self".to_string()).is_self());
    assert!(!IdentId::new("Self".to_string()).is_self());
    let p: Partial<u32> = Some(3).into();
    assert_eq!(*p.unwrap(), 3);
    let q: Partial<u32> = None.into();
    assert_eq!(q, Partial::Absent);
    assert_eq!(Partial::<u32>::default(), Partial::Absent);
}
