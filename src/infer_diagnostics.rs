//! Diagnostics of lowering types inside bodies.
use vstd::prelude::*;
use crate::diag::{
    is_sub, CompleteDiagnostic, DiagnosticPass, DynLazySpan, GlobalErrorCode, LabelStyle,
    Severity, SubDiagnostic,
};

verus! {

/// The diagnostics of struct definitions.
pub struct StructDefDiagAccumulator(pub TyLowerDiag);

/// The diagnostics of enum definitions.
pub struct EnumDefDiagAccumulator(pub TyLowerDiag);

/// The diagnostics of contract definitions.
pub struct ContractDefDiagAccumulator(pub TyLowerDiag);

/// The diagnostics of type alias definitions.
pub struct TypeAliasDefDiagAccumulator(pub TyLowerDiag);

#[derive(Debug, Clone, Copy, PartialEq, Eq, Hash, Structural)]
pub enum TyLowerDiag {
    InvalidType(DynLazySpan),
    NotFullyAppliedType(DynLazySpan),
    AssocTy(DynLazySpan),
}

pub open spec fn local_code_of(d: TyLowerDiag) -> u16 {
    match d {
        TyLowerDiag::InvalidType(_) => 0,
        TyLowerDiag::NotFullyAppliedType(_) => 1,
        TyLowerDiag::AssocTy(_) => 2,
    }
}

pub open spec fn message_of(d: TyLowerDiag) -> Seq<char> {
    match d {
        TyLowerDiag::InvalidType(_) => "expected type"@,
        TyLowerDiag::NotFullyAppliedType(_) => "expected fully applied type"@,
        TyLowerDiag::AssocTy(_) => "associated type is not supported "@,
    }
}

/// The text of the one label of `d`.
pub open spec fn label_of(d: TyLowerDiag) -> Seq<char> {
    match d {
        TyLowerDiag::InvalidType(_) => "expected type here"@,
        TyLowerDiag::NotFullyAppliedType(_) => "expected fully applied type here"@,
        TyLowerDiag::AssocTy(_) => "associated type is not implemented"@,
    }
}

pub open spec fn span_of(d: TyLowerDiag) -> DynLazySpan {
    match d {
        TyLowerDiag::InvalidType(s) => s,
        TyLowerDiag::NotFullyAppliedType(s) => s,
        TyLowerDiag::AssocTy(s) => s,
    }
}

impl TyLowerDiag {
    pub fn assoc_ty(span: DynLazySpan) -> (r: Self)
        ensures
            r == TyLowerDiag::AssocTy(span),
    {
        Self::AssocTy(span)
    }

    pub fn invalid_type(span: DynLazySpan) -> (r: Self)
        ensures
            r == TyLowerDiag::InvalidType(span),
    {
        Self::InvalidType(span)
    }

    pub fn not_fully_applied_type(span: DynLazySpan) -> (r: Self)
        ensures
            r == TyLowerDiag::NotFullyAppliedType(span),
    {
        Self::NotFullyAppliedType(span)
    }

    pub fn local_code(&self) -> (r: u16)
        ensures
            r == local_code_of(*self),
    {
        match self {
            Self::InvalidType(_) => 0,
            Self::NotFullyAppliedType(_) => 1,
            Self::AssocTy(_) => 2,
        }
    }

    pub fn message(&self) -> (r: String)
        ensures
            r@ == message_of(*self),
    {
        match self {
            Self::InvalidType(_) => "expected type".to_string(),
            Self::NotFullyAppliedType(_) => "expected fully applied type".to_string(),
            Self::AssocTy(_) => "associated type is not supported ".to_string(),
        }
    }

    /// One primary label on the span of the diagnostic.
    pub fn sub_diags(&self) -> (r: Vec<SubDiagnostic>)
        ensures
            r@.len() == 1,
            is_sub(r@[0], LabelStyle::Primary, label_of(*self), span_of(*self)),
    {
        let (text, span) = match self {
            Self::InvalidType(span) => ("expected type here".to_string(), *span),
            Self::NotFullyAppliedType(span) => ("expected fully applied type here".to_string(), *span),
            Self::AssocTy(span) => ("associated type is not implemented".to_string(), *span),
        };
        vec![SubDiagnostic::new(LabelStyle::Primary, text, span)]
    }

    pub fn severity(&self) -> (r: Severity)
        ensures
            r == Severity::Error,
    {
        Severity::Error
    }

    pub fn error_code(&self) -> (r: GlobalErrorCode)
        ensures
            r == (GlobalErrorCode { pass: DiagnosticPass::TypeDefinition, local_code: local_code_of(*self) }),
    {
        GlobalErrorCode::new(DiagnosticPass::TypeDefinition, self.local_code())
    }

    /// The diagnostic, ready to be rendered.
    pub fn to_complete(&self) -> (r: CompleteDiagnostic)
        ensures
            r.severity == Severity::Error,
            r.message@ == message_of(*self),
            r.sub_diagnostics@.len() == 1,
            is_sub(r.sub_diagnostics@[0], LabelStyle::Primary, label_of(*self), span_of(*self)),
            r.notes@.len() == 0,
            r.error_code == (GlobalErrorCode { pass: DiagnosticPass::TypeDefinition, local_code: local_code_of(*self) }),
    {
        let severity = self.severity();
        let error_code = self.error_code();
        let message = self.message();
        let sub_diags = self.sub_diags();
        CompleteDiagnostic::new(severity, message, sub_diags, Vec::new(), error_code)
    }
}

} // verus!
