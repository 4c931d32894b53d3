//! Diagnostics of lowering type and trait definitions.
use vstd::prelude::*;
use crate::diag::{
    is_sub, primary, primary_secondary, CompleteDiagnostic, DiagnosticPass, DynLazySpan,
    GlobalErrorCode, ImplTrait, LabelStyle, Severity, SubDiagnostic, TypeAlias,
};
use crate::text::{decimal, kind_text, usize_text};
use crate::ty_def::Kind;

verus! {

/// The diagnostic of a kind that does not match: "expected `e` kind, but
/// `ty` has `k` kind".
pub open spec fn kind_mismatch_text(e: Seq<char>, ty: Seq<char>, k: Seq<char>) -> Seq<char> {
    "expected `"@ + e + "` kind, but `"@ + ty + "` has `"@ + k + "` kind"@
}

/// Builds the text of `kind_mismatch_text`.
pub(crate) fn kind_mismatch_message(expected: &Kind, ty: &str, actual: &Kind) -> (r: String)
    ensures
        r@ == kind_mismatch_text(kind_text(*expected), ty@, kind_text(*actual)),
{
    let e = expected.display();
    let k = actual.display();
    let mut s = "expected `".to_string();
    s.append(e.as_str());
    s.append("` kind, but `");
    s.append(ty);
    s.append("` has `");
    s.append(k.as_str());
    s.append("` kind");
    s
}

#[derive(Debug, Clone, PartialEq, Eq, Hash)]
pub enum TyLowerDiag {
    NotFullyAppliedType(DynLazySpan),
    InvalidTypeArgKind(DynLazySpan, String),
    RecursiveType { primary_span: DynLazySpan, field_span: DynLazySpan },
    UnboundTypeAliasParam { span: DynLazySpan, type_alias: TypeAlias, n_given_arg: usize },
    TypeAliasCycle { primary: DynLazySpan, cycle: Vec<TypeAlias> },
    InconsistentKindBound(DynLazySpan, String),
    KindBoundNotAllowed(DynLazySpan),
    AssocTy(DynLazySpan),
}

pub open spec fn ty_lower_code(d: TyLowerDiag) -> u16 {
    match d {
        TyLowerDiag::NotFullyAppliedType(_) => 0,
        TyLowerDiag::InvalidTypeArgKind(_, _) => 1,
        TyLowerDiag::RecursiveType { .. } => 2,
        TyLowerDiag::UnboundTypeAliasParam { .. } => 3,
        TyLowerDiag::TypeAliasCycle { .. } => 4,
        TyLowerDiag::InconsistentKindBound(_, _) => 5,
        TyLowerDiag::KindBoundNotAllowed(_) => 6,
        TyLowerDiag::AssocTy(_) => 7,
    }
}

pub open spec fn ty_lower_message(d: TyLowerDiag) -> Seq<char> {
    match d {
        TyLowerDiag::NotFullyAppliedType(_) => "expected fully applied type"@,
        TyLowerDiag::InvalidTypeArgKind(_, _) => "invalid type argument kind"@,
        TyLowerDiag::RecursiveType { .. } => "recursive type is not allowed"@,
        TyLowerDiag::UnboundTypeAliasParam { .. } => "all type parameters of type alias must be given"@,
        TyLowerDiag::TypeAliasCycle { .. } => "recursive type alias cycle is detected"@,
        TyLowerDiag::InconsistentKindBound(_, _) => "duplicate type bound is not allowed."@,
        TyLowerDiag::KindBoundNotAllowed(_) => "kind bound is not allowed"@,
        TyLowerDiag::AssocTy(_) => "associated type is not supported "@,
    }
}

/// The labels of a type lowering diagnostic.
pub open spec fn ty_lower_subs(d: TyLowerDiag, r: Seq<SubDiagnostic>) -> bool {
    match d {
        TyLowerDiag::NotFullyAppliedType(span) => r.len() == 1 && is_sub(
            r[0],
            LabelStyle::Primary,
            "expected fully applied type here"@,
            span,
        ),
        TyLowerDiag::InvalidTypeArgKind(span, msg) => r.len() == 1 && is_sub(
            r[0],
            LabelStyle::Primary,
            msg@,
            span,
        ),
        TyLowerDiag::RecursiveType { primary_span, field_span } => r.len() == 2 && is_sub(
            r[0],
            LabelStyle::Primary,
            "recursive type definition"@,
            primary_span,
        ) && is_sub(r[1], LabelStyle::Secondary, "recursion occurs here"@, field_span),
        TyLowerDiag::UnboundTypeAliasParam { span, type_alias, .. } => r.len() == 2 && is_sub(
            r[0],
            LabelStyle::Primary,
            "expected at least "@ + decimal(type_alias.n_generic_params as nat) + " arguments here"@,
            span,
        ) && is_sub(r[1], LabelStyle::Secondary, "type alias defined here"@, type_alias.span),
        TyLowerDiag::TypeAliasCycle { primary, cycle } => r.len() == 1 + cycle@.len() && is_sub(
            r[0],
            LabelStyle::Primary,
            "cycle happens here"@,
            primary,
        ) && forall|i: int|
            0 <= i < cycle@.len() ==> is_sub(
                #[trigger] r[i + 1],
                LabelStyle::Secondary,
                "type alias defined here"@,
                cycle@[i].alias_span,
            ),
        TyLowerDiag::InconsistentKindBound(span, msg) => r.len() == 1 && is_sub(
            r[0],
            LabelStyle::Primary,
            msg@,
            span,
        ),
        TyLowerDiag::KindBoundNotAllowed(span) => r.len() == 1 && is_sub(
            r[0],
            LabelStyle::Primary,
            "kind bound is not allowed here"@,
            span,
        ),
        TyLowerDiag::AssocTy(span) => r.len() == 1 && is_sub(
            r[0],
            LabelStyle::Primary,
            "associated type is not implemented"@,
            span,
        ),
    }
}

impl TyLowerDiag {
    pub fn not_fully_applied_type(span: DynLazySpan) -> (r: Self)
        ensures
            r == TyLowerDiag::NotFullyAppliedType(span),
    {
        Self::NotFullyAppliedType(span)
    }

    /// An argument of the wrong kind, written `arg` and of kind `arg_kind`,
    /// where `expected` is the kind of the parameter; no parameter is left
    /// for it when `expected` is `None`.
    pub fn invalid_type_arg_kind(
        span: DynLazySpan,
        expected: Option<Kind>,
        arg: &str,
        arg_kind: &Kind,
    ) -> (r: Self)
        ensures
            r is InvalidTypeArgKind,
            r->InvalidTypeArgKind_0 == span,
            r->InvalidTypeArgKind_1@ == (match expected {
                Some(e) => kind_mismatch_text(kind_text(e), arg@, kind_text(*arg_kind)),
                None => "too many generic arguments"@,
            }),
    {
        let msg = match &expected {
            Some(e) => kind_mismatch_message(e, arg, arg_kind),
            None => "too many generic arguments".to_string(),
        };
        Self::InvalidTypeArgKind(span, msg)
    }

    pub fn recursive_type(primary_span: DynLazySpan, field_span: DynLazySpan) -> (r: Self)
        ensures
            r == (TyLowerDiag::RecursiveType { primary_span, field_span }),
    {
        Self::RecursiveType { primary_span, field_span }
    }

    pub fn unbound_type_alias_param(span: DynLazySpan, type_alias: TypeAlias, n_given_arg: usize) -> (r: Self)
        ensures
            r == (TyLowerDiag::UnboundTypeAliasParam { span, type_alias, n_given_arg }),
    {
        Self::UnboundTypeAliasParam { span, type_alias, n_given_arg }
    }

    /// The type written `ty` was bound to `former_bound` and is now bound
    /// to `new_kind`.
    pub fn inconsistent_kind_bound(span: DynLazySpan, ty: &str, former_bound: &Kind, new_kind: &Kind) -> (r: Self)
        ensures
            r is InconsistentKindBound,
            r->InconsistentKindBound_0 == span,
            r->InconsistentKindBound_1@ == "`"@ + ty@ + "` is already declared with `"@ + kind_text(
                *former_bound,
            ) + "` kind, but found `"@ + kind_text(*new_kind) + "` kind here"@,
    {
        let f = former_bound.display();
        let n = new_kind.display();
        let mut msg = "`".to_string();
        msg.append(ty);
        msg.append("` is already declared with `");
        msg.append(f.as_str());
        msg.append("` kind, but found `");
        msg.append(n.as_str());
        msg.append("` kind here");
        Self::InconsistentKindBound(span, msg)
    }

    pub fn assoc_ty(span: DynLazySpan) -> (r: Self)
        ensures
            r == TyLowerDiag::AssocTy(span),
    {
        Self::AssocTy(span)
    }

    pub fn local_code(&self) -> (r: u16)
        ensures
            r == ty_lower_code(*self),
    {
        match self {
            Self::NotFullyAppliedType(_) => 0,
            Self::InvalidTypeArgKind(_, _) => 1,
            Self::RecursiveType { .. } => 2,
            Self::UnboundTypeAliasParam { .. } => 3,
            Self::TypeAliasCycle { .. } => 4,
            Self::InconsistentKindBound(_, _) => 5,
            Self::KindBoundNotAllowed(_) => 6,
            Self::AssocTy(_) => 7,
        }
    }

    pub fn message(&self) -> (r: String)
        ensures
            r@ == ty_lower_message(*self),
    {
        match self {
            Self::NotFullyAppliedType(_) => "expected fully applied type".to_string(),
            Self::InvalidTypeArgKind(_, _) => "invalid type argument kind".to_string(),
            Self::RecursiveType { .. } => "recursive type is not allowed".to_string(),
            Self::UnboundTypeAliasParam { .. } => {
                "all type parameters of type alias must be given".to_string()
            },
            Self::TypeAliasCycle { .. } => "recursive type alias cycle is detected".to_string(),
            Self::InconsistentKindBound(_, _) => "duplicate type bound is not allowed.".to_string(),
            Self::KindBoundNotAllowed(_) => "kind bound is not allowed".to_string(),
            Self::AssocTy(_) => "associated type is not supported ".to_string(),
        }
    }

    pub fn sub_diags(&self) -> (r: Vec<SubDiagnostic>)
        ensures
            ty_lower_subs(*self, r@),
    {
        match self {
            Self::NotFullyAppliedType(span) => primary(
                "expected fully applied type here".to_string(),
                *span,
            ),
            Self::InvalidTypeArgKind(span, msg) => primary(msg.clone(), *span),
            Self::RecursiveType { primary_span, field_span } => primary_secondary(
                "recursive type definition".to_string(),
                *primary_span,
                "recursion occurs here".to_string(),
                *field_span,
            ),
            Self::UnboundTypeAliasParam { span, type_alias, .. } => {
                let n = usize_text(type_alias.n_generic_params);
                let mut text = "expected at least ".to_string();
                text.append(n.as_str());
                text.append(" arguments here");
                primary_secondary(
                    text,
                    *span,
                    "type alias defined here".to_string(),
                    type_alias.span,
                )
            },
            Self::TypeAliasCycle { primary: span, cycle } => {
                let mut diags = primary("cycle happens here".to_string(), *span);
                let mut i: usize = 0;
                while i < cycle.len()
                    invariant
                        i <= cycle@.len(),
                        diags@.len() == 1 + i,
                        is_sub(diags@[0], LabelStyle::Primary, "cycle happens here"@, *span),
                        forall|j: int|
                            0 <= j < i ==> is_sub(
                                #[trigger] diags@[j + 1],
                                LabelStyle::Secondary,
                                "type alias defined here"@,
                                cycle@[j].alias_span,
                            ),
                    decreases cycle@.len() - i,
                {
                    diags.push(
                        SubDiagnostic::new(
                            LabelStyle::Secondary,
                            "type alias defined here".to_string(),
                            cycle[i].alias_span,
                        ),
                    );
                    i = i + 1;
                }
                diags
            },
            Self::InconsistentKindBound(span, msg) => primary(msg.clone(), *span),
            Self::KindBoundNotAllowed(span) => primary(
                "kind bound is not allowed here".to_string(),
                *span,
            ),
            Self::AssocTy(span) => primary("associated type is not implemented".to_string(), *span),
        }
    }

    pub fn severity(&self) -> (r: Severity)
        ensures
            r == Severity::Error,
    {
        Severity::Error
    }

    pub fn error_code(&self) -> (r: GlobalErrorCode)
        ensures
            r == (GlobalErrorCode { pass: DiagnosticPass::TypeDefinition, local_code: ty_lower_code(*self) }),
    {
        GlobalErrorCode::new(DiagnosticPass::TypeDefinition, self.local_code())
    }

    /// The diagnostic, ready to be rendered.
    pub fn to_complete(&self) -> (r: CompleteDiagnostic)
        ensures
            r.severity == Severity::Error,
            r.message@ == ty_lower_message(*self),
            ty_lower_subs(*self, r.sub_diagnostics@),
            r.notes@.len() == 0,
            r.error_code == (GlobalErrorCode { pass: DiagnosticPass::TypeDefinition, local_code: ty_lower_code(*self) }),
    {
        let severity = self.severity();
        let error_code = self.error_code();
        let message = self.message();
        let sub_diags = self.sub_diags();
        CompleteDiagnostic::new(severity, message, sub_diags, Vec::new(), error_code)
    }
}

#[derive(Debug, Clone, Copy, PartialEq, Eq, Hash, Structural)]
pub enum TraitLowerDiag {
    ExternalTraitForExternalType(DynLazySpan),
    ConflictTraitImpl { primary: ImplTrait, conflict_with: ImplTrait },
    CyclicSuperTraits(DynLazySpan),
}

pub open spec fn trait_lower_code(d: TraitLowerDiag) -> u16 {
    match d {
        TraitLowerDiag::ExternalTraitForExternalType(_) => 0,
        TraitLowerDiag::ConflictTraitImpl { .. } => 1,
        TraitLowerDiag::CyclicSuperTraits(_) => 2,
    }
}

pub open spec fn trait_lower_message(d: TraitLowerDiag) -> Seq<char> {
    match d {
        TraitLowerDiag::ExternalTraitForExternalType(_) => "external trait cannot be implemented for external type"@,
        TraitLowerDiag::ConflictTraitImpl { .. } => "conflict trait implementation"@,
        TraitLowerDiag::CyclicSuperTraits(_) => "cyclic super traits are not allowed"@,
    }
}

/// The labels of a trait lowering diagnostic.
pub open spec fn trait_lower_subs(d: TraitLowerDiag, r: Seq<SubDiagnostic>) -> bool {
    match d {
        TraitLowerDiag::ExternalTraitForExternalType(span) => r.len() == 1 && is_sub(
            r[0],
            LabelStyle::Primary,
            "external trait cannot be implemented for external type"@,
            span,
        ),
        TraitLowerDiag::ConflictTraitImpl { primary, conflict_with } => r.len() == 2 && is_sub(
            r[0],
            LabelStyle::Primary,
            "conflict trait implementation"@,
            primary.ty_span,
        ) && is_sub(
            r[1],
            LabelStyle::Secondary,
            "conflict with this trait implementation"@,
            conflict_with.ty_span,
        ),
        TraitLowerDiag::CyclicSuperTraits(span) => r.len() == 1 && is_sub(
            r[0],
            LabelStyle::Primary,
            "super traits cycle is detected here"@,
            span,
        ),
    }
}

impl TraitLowerDiag {
    /// Reported on the trait of `impl_trait`.
    pub fn external_trait_for_external_type(impl_trait: ImplTrait) -> (r: Self)
        ensures
            r == TraitLowerDiag::ExternalTraitForExternalType(impl_trait.trait_ref_span),
    {
        Self::ExternalTraitForExternalType(impl_trait.trait_ref_span)
    }

    pub fn conflict_impl(primary: ImplTrait, conflict_with: ImplTrait) -> (r: Self)
        ensures
            r == (TraitLowerDiag::ConflictTraitImpl { primary, conflict_with }),
    {
        Self::ConflictTraitImpl { primary, conflict_with }
    }

    pub fn local_code(&self) -> (r: u16)
        ensures
            r == trait_lower_code(*self),
    {
        match self {
            Self::ExternalTraitForExternalType(_) => 0,
            Self::ConflictTraitImpl { .. } => 1,
            Self::CyclicSuperTraits(_) => 2,
        }
    }

    pub fn message(&self) -> (r: String)
        ensures
            r@ == trait_lower_message(*self),
    {
        match self {
            Self::ExternalTraitForExternalType(_) => {
                "external trait cannot be implemented for external type".to_string()
            },
            Self::ConflictTraitImpl { .. } => "conflict trait implementation".to_string(),
            Self::CyclicSuperTraits(_) => "cyclic super traits are not allowed".to_string(),
        }
    }

    pub fn sub_diags(&self) -> (r: Vec<SubDiagnostic>)
        ensures
            trait_lower_subs(*self, r@),
    {
        match self {
            Self::ExternalTraitForExternalType(span) => primary(
                "external trait cannot be implemented for external type".to_string(),
                *span,
            ),
            Self::ConflictTraitImpl { primary, conflict_with } => primary_secondary(
                "conflict trait implementation".to_string(),
                primary.ty_span,
                "conflict with this trait implementation".to_string(),
                conflict_with.ty_span,
            ),
            Self::CyclicSuperTraits(span) => primary(
                "super traits cycle is detected here".to_string(),
                *span,
            ),
        }
    }

    pub fn severity(&self) -> (r: Severity)
        ensures
            r == Severity::Error,
    {
        Severity::Error
    }

    pub fn error_code(&self) -> (r: GlobalErrorCode)
        ensures
            r == (GlobalErrorCode { pass: DiagnosticPass::ImplTraitDefinition, local_code: trait_lower_code(*self) }),
    {
        GlobalErrorCode::new(DiagnosticPass::ImplTraitDefinition, self.local_code())
    }

    /// The diagnostic, ready to be rendered.
    pub fn to_complete(&self) -> (r: CompleteDiagnostic)
        ensures
            r.severity == Severity::Error,
            r.message@ == trait_lower_message(*self),
            trait_lower_subs(*self, r.sub_diagnostics@),
            r.notes@.len() == 0,
            r.error_code == (GlobalErrorCode { pass: DiagnosticPass::ImplTraitDefinition, local_code: trait_lower_code(*self) }),
    {
        let severity = self.severity();
        let error_code = self.error_code();
        let message = self.message();
        let sub_diags = self.sub_diags();
        CompleteDiagnostic::new(severity, message, sub_diags, Vec::new(), error_code)
    }
}

} // verus!
