//! The payload of a diagnostic, before its spans are resolved and it is
//! rendered.
use vstd::prelude::*;

verus! {

/// A source location that is resolved only when the diagnostic is
/// rendered; carried here as an opaque handle.
#[derive(Debug, Clone, Copy, PartialEq, Eq, Hash, Structural)]
pub struct DynLazySpan(pub u32);

#[derive(Debug, Clone, Copy, PartialEq, Eq, Hash, Structural)]
pub enum LabelStyle {
    Primary,
    Secondary,
}

#[derive(Debug, Clone, Copy, PartialEq, Eq, Hash, Structural)]
pub enum Severity {
    Error,
    Warning,
    Note,
}

/// The analysis pass that reports a diagnostic.
#[derive(Debug, Clone, Copy, PartialEq, Eq, Hash, Structural)]
pub enum DiagnosticPass {
    Parse,
    NameResolution,
    TypeDefinition,
    TraitDefinition,
    ImplTraitDefinition,
    TraitSatisfaction,
    MethodDefinition,
    TyCheck,
}

/// A pass together with a code local to that pass.
#[derive(Debug, Clone, Copy, PartialEq, Eq, Hash, Structural)]
pub struct GlobalErrorCode {
    pub pass: DiagnosticPass,
    pub local_code: u16,
}

impl GlobalErrorCode {
    pub fn new(pass: DiagnosticPass, local_code: u16) -> (r: GlobalErrorCode)
        ensures
            r == (GlobalErrorCode { pass, local_code }),
    {
        GlobalErrorCode { pass, local_code }
    }
}

/// One labelled span of a diagnostic.
#[derive(Debug)]
pub struct SubDiagnostic {
    pub style: LabelStyle,
    pub message: String,
    pub span: DynLazySpan,
}

/// `d` has the given style, text and span.
pub open spec fn is_sub(d: SubDiagnostic, style: LabelStyle, msg: Seq<char>, span: DynLazySpan) -> bool {
    d.style == style && d.message@ == msg && d.span == span
}

impl SubDiagnostic {
    pub fn new(style: LabelStyle, message: String, span: DynLazySpan) -> (r: SubDiagnostic)
        ensures
            is_sub(r, style, message@, span),
    {
        SubDiagnostic { style, message, span }
    }
}

/// A diagnostic ready to be rendered.
#[derive(Debug)]
pub struct CompleteDiagnostic {
    pub severity: Severity,
    pub message: String,
    pub sub_diagnostics: Vec<SubDiagnostic>,
    pub notes: Vec<String>,
    pub error_code: GlobalErrorCode,
}

impl CompleteDiagnostic {
    pub fn new(
        severity: Severity,
        message: String,
        sub_diagnostics: Vec<SubDiagnostic>,
        notes: Vec<String>,
        error_code: GlobalErrorCode,
    ) -> (r: CompleteDiagnostic)
        ensures
            r.severity == severity,
            r.message@ == message@,
            r.sub_diagnostics@ == sub_diagnostics@,
            r.notes@ == notes@,
            r.error_code == error_code,
    {
        CompleteDiagnostic { severity, message, sub_diagnostics, notes, error_code }
    }
}

/// A source item that diagnostics point at: a type alias.
#[derive(Debug, Clone, Copy, PartialEq, Eq, Hash, Structural)]
pub struct TypeAlias {
    /// The number of generic parameters the alias declares.
    pub n_generic_params: usize,
    /// The span of the whole alias.
    pub span: DynLazySpan,
    /// The span of the alias keyword and name.
    pub alias_span: DynLazySpan,
}

/// A trait, as diagnostics need it.
#[derive(Debug, Clone, PartialEq, Eq, Hash)]
pub struct Trait {
    pub name: crate::hir_def::IdentId,
    pub name_span: DynLazySpan,
}

/// An implementation of a trait for a type, as diagnostics need it.
#[derive(Debug, Clone, Copy, PartialEq, Eq, Hash, Structural)]
pub struct ImplTrait {
    /// The span of the implementing type.
    pub ty_span: DynLazySpan,
    /// The span of the implemented trait.
    pub trait_ref_span: DynLazySpan,
}

/// One primary label.
pub(crate) fn primary(text: String, span: DynLazySpan) -> (r: Vec<SubDiagnostic>)
    ensures
        r@.len() == 1,
        is_sub(r@[0], LabelStyle::Primary, text@, span),
{
    vec![SubDiagnostic::new(LabelStyle::Primary, text, span)]
}

/// A primary label, then a secondary one.
pub(crate) fn primary_secondary(
    text1: String,
    span1: DynLazySpan,
    text2: String,
    span2: DynLazySpan,
) -> (r: Vec<SubDiagnostic>)
    ensures
        r@.len() == 2,
        is_sub(r@[0], LabelStyle::Primary, text1@, span1),
        is_sub(r@[1], LabelStyle::Secondary, text2@, span2),
{
    vec![
        SubDiagnostic::new(LabelStyle::Primary, text1, span1),
        SubDiagnostic::new(LabelStyle::Secondary, text2, span2),
    ]
}

} // verus!
