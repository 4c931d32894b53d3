//! Diagnostics of trait-bound satisfaction and of impl methods, and the
//! collection of all type diagnostics.
use vstd::prelude::*;
use crate::diag::{
    is_sub, primary, primary_secondary, CompleteDiagnostic, DiagnosticPass, DynLazySpan,
    GlobalErrorCode, LabelStyle, Severity, SubDiagnostic, Trait,
};
use crate::text::{decimal, kind_text, usize_text};
use crate::ty_def::Kind;
use crate::ty_diagnostics::{kind_mismatch_message, kind_mismatch_text};

verus! {

/// "expected `e` type, but the given type is `g`".
pub open spec fn ty_mismatch_text(e: Seq<char>, g: Seq<char>) -> Seq<char> {
    "expected `"@ + e + "` type, but the given type is `"@ + g + "`"@
}

/// "expected e <what> here, but g given".
pub open spec fn count_mismatch_text(e: usize, what: Seq<char>, g: usize) -> Seq<char> {
    "expected "@ + decimal(e as nat) + what + " here, but "@ + decimal(g as nat) + " given"@
}

pub(crate) fn count_mismatch_message(expected: usize, what: &str, given: usize) -> (r: String)
    ensures
        r@ == count_mismatch_text(expected, what@, given),
{
    let e = usize_text(expected);
    let g = usize_text(given);
    let mut s = "expected ".to_string();
    s.append(e.as_str());
    s.append(what);
    s.append(" here, but ");
    s.append(g.as_str());
    s.append(" given");
    s
}

#[derive(Debug, Clone, PartialEq, Eq, Hash)]
pub enum TraitConstraintDiag {
    KindMismatch { primary: DynLazySpan, trait_def: Trait },
    TraitArgNumMismatch { span: DynLazySpan, expected: usize, given: usize },
    TraitArgKindMismatch(DynLazySpan, String),
    TraitBoundNotSat(DynLazySpan, String),
    InfiniteBoundRecursion(DynLazySpan, String),
    ConcreteTypeBound(DynLazySpan, String),
}

pub open spec fn constraint_code(d: TraitConstraintDiag) -> u16 {
    match d {
        TraitConstraintDiag::KindMismatch { .. } => 0,
        TraitConstraintDiag::TraitArgNumMismatch { .. } => 1,
        TraitConstraintDiag::TraitArgKindMismatch(_, _) => 2,
        TraitConstraintDiag::TraitBoundNotSat(_, _) => 3,
        TraitConstraintDiag::InfiniteBoundRecursion(_, _) => 4,
        TraitConstraintDiag::ConcreteTypeBound(_, _) => 5,
    }
}

pub open spec fn constraint_message(d: TraitConstraintDiag) -> Seq<char> {
    match d {
        TraitConstraintDiag::KindMismatch { .. } => "type doesn't satisfy required kind bound"@,
        TraitConstraintDiag::TraitArgNumMismatch { .. } => "given trait argument number mismatch"@,
        TraitConstraintDiag::TraitArgKindMismatch(_, _) => "given trait argument kind mismatch"@,
        TraitConstraintDiag::TraitBoundNotSat(_, _) => "trait bound is not satisfied"@,
        TraitConstraintDiag::InfiniteBoundRecursion(_, _) => "infinite trait bound recursion"@,
        TraitConstraintDiag::ConcreteTypeBound(_, _) => "trait bound for concrete type is not allowed"@,
    }
}

/// The labels of a trait-bound diagnostic.
pub open spec fn constraint_subs(d: TraitConstraintDiag, r: Seq<SubDiagnostic>) -> bool {
    match d {
        TraitConstraintDiag::KindMismatch { primary, trait_def } => r.len() == 2 && is_sub(
            r[0],
            LabelStyle::Primary,
            "type doesn't satisfy required kind bound here"@,
            primary,
        ) && is_sub(r[1], LabelStyle::Secondary, "trait is defined here"@, trait_def.name_span),
        TraitConstraintDiag::TraitArgNumMismatch { span, expected, given } => r.len() == 1
            && is_sub(
            r[0],
            LabelStyle::Primary,
            count_mismatch_text(expected, " arguments"@, given),
            span,
        ),
        TraitConstraintDiag::TraitArgKindMismatch(span, msg) => r.len() == 1 && is_sub(
            r[0],
            LabelStyle::Primary,
            msg@,
            span,
        ),
        TraitConstraintDiag::TraitBoundNotSat(span, msg) => r.len() == 1 && is_sub(
            r[0],
            LabelStyle::Primary,
            msg@,
            span,
        ),
        TraitConstraintDiag::InfiniteBoundRecursion(span, msg) => r.len() == 1 && is_sub(
            r[0],
            LabelStyle::Primary,
            msg@,
            span,
        ),
        TraitConstraintDiag::ConcreteTypeBound(span, msg) => r.len() == 1 && is_sub(
            r[0],
            LabelStyle::Primary,
            msg@,
            span,
        ),
    }
}

impl TraitConstraintDiag {
    /// The type written `actual`, of kind `actual_kind`, does not have the
    /// kind `expected` that the trait asks for.
    pub fn kind_mismatch(span: DynLazySpan, expected: &Kind, actual: &str, actual_kind: &Kind) -> (r: Self)
        ensures
            r is TraitArgKindMismatch,
            r->TraitArgKindMismatch_0 == span,
            r->TraitArgKindMismatch_1@ == kind_mismatch_text(
                kind_text(*expected),
                actual@,
                kind_text(*actual_kind),
            ),
    {
        let msg = kind_mismatch_message(expected, actual, actual_kind);
        Self::TraitArgKindMismatch(span, msg)
    }

    pub fn trait_arg_num_mismatch(span: DynLazySpan, expected: usize, given: usize) -> (r: Self)
        ensures
            r == (TraitConstraintDiag::TraitArgNumMismatch { span, expected, given }),
    {
        Self::TraitArgNumMismatch { span, expected, given }
    }

    /// The type written `ty` does not implement the trait written `goal`.
    pub fn trait_bound_not_satisfied(span: DynLazySpan, ty: &str, goal: &str) -> (r: Self)
        ensures
            r is TraitBoundNotSat,
            r->TraitBoundNotSat_0 == span,
            r->TraitBoundNotSat_1@ == "`"@ + ty@ + "` doesn't implement `"@ + goal@ + "`"@,
    {
        let mut msg = "`".to_string();
        msg.append(ty);
        msg.append("` doesn't implement `");
        msg.append(goal);
        msg.append("`");
        Self::TraitBoundNotSat(span, msg)
    }

    /// Checking that the type written `ty` implements the trait written
    /// `goal` came back to that same check.
    pub fn infinite_bound_recursion(span: DynLazySpan, ty: &str, goal: &str) -> (r: Self)
        ensures
            r is InfiniteBoundRecursion,
            r->InfiniteBoundRecursion_0 == span,
            r->InfiniteBoundRecursion_1@ == "infinite evaluation recursion occurs when checking `"@
                + ty@ + ": "@ + goal@ + "` "@,
    {
        let mut msg = "infinite evaluation recursion occurs when checking `".to_string();
        msg.append(ty);
        msg.append(": ");
        msg.append(goal);
        msg.append("` ");
        Self::InfiniteBoundRecursion(span, msg)
    }

    /// A bound on the concrete type written `ty`.
    pub fn concrete_type_bound(span: DynLazySpan, ty: &str) -> (r: Self)
        ensures
            r is ConcreteTypeBound,
            r->ConcreteTypeBound_0 == span,
            r->ConcreteTypeBound_1@ == "`"@ + ty@ + "` is a concrete type"@,
    {
        let mut msg = "`".to_string();
        msg.append(ty);
        msg.append("` is a concrete type");
        Self::ConcreteTypeBound(span, msg)
    }

    pub fn local_code(&self) -> (r: u16)
        ensures
            r == constraint_code(*self),
    {
        match self {
            Self::KindMismatch { .. } => 0,
            Self::TraitArgNumMismatch { .. } => 1,
            Self::TraitArgKindMismatch(_, _) => 2,
            Self::TraitBoundNotSat(_, _) => 3,
            Self::InfiniteBoundRecursion(_, _) => 4,
            Self::ConcreteTypeBound(_, _) => 5,
        }
    }

    pub fn message(&self) -> (r: String)
        ensures
            r@ == constraint_message(*self),
    {
        match self {
            Self::KindMismatch { .. } => "type doesn't satisfy required kind bound".to_string(),
            Self::TraitArgNumMismatch { .. } => "given trait argument number mismatch".to_string(),
            Self::TraitArgKindMismatch(_, _) => "given trait argument kind mismatch".to_string(),
            Self::TraitBoundNotSat(_, _) => "trait bound is not satisfied".to_string(),
            Self::InfiniteBoundRecursion(_, _) => "infinite trait bound recursion".to_string(),
            Self::ConcreteTypeBound(_, _) => {
                "trait bound for concrete type is not allowed".to_string()
            },
        }
    }

    pub fn sub_diags(&self) -> (r: Vec<SubDiagnostic>)
        ensures
            constraint_subs(*self, r@),
    {
        match self {
            Self::KindMismatch { primary, trait_def } => primary_secondary(
                "type doesn't satisfy required kind bound here".to_string(),
                *primary,
                "trait is defined here".to_string(),
                trait_def.name_span,
            ),
            Self::TraitArgNumMismatch { span, expected, given } => primary(
                count_mismatch_message(*expected, " arguments", *given),
                *span,
            ),
            Self::TraitArgKindMismatch(span, msg) => primary(msg.clone(), *span),
            Self::TraitBoundNotSat(span, msg) => primary(msg.clone(), *span),
            Self::InfiniteBoundRecursion(span, msg) => primary(msg.clone(), *span),
            Self::ConcreteTypeBound(span, msg) => primary(msg.clone(), *span),
        }
    }

    pub fn severity(&self) -> (r: Severity)
        ensures
            r == Severity::Error,
    {
        Severity::Error
    }

    pub fn error_code(&self) -> (r: GlobalErrorCode)
        ensures
            r == (GlobalErrorCode { pass: DiagnosticPass::TraitSatisfaction, local_code: constraint_code(*self) }),
    {
        GlobalErrorCode::new(DiagnosticPass::TraitSatisfaction, self.local_code())
    }

    /// The diagnostic, ready to be rendered.
    pub fn to_complete(&self) -> (r: CompleteDiagnostic)
        ensures
            r.severity == Severity::Error,
            r.message@ == constraint_message(*self),
            constraint_subs(*self, r.sub_diagnostics@),
            r.notes@.len() == 0,
            r.error_code == (GlobalErrorCode { pass: DiagnosticPass::TraitSatisfaction, local_code: constraint_code(*self) }),
    {
        let severity = self.severity();
        let error_code = self.error_code();
        let message = self.message();
        let sub_diags = self.sub_diags();
        CompleteDiagnostic::new(severity, message, sub_diags, Vec::new(), error_code)
    }
}

} // verus!
