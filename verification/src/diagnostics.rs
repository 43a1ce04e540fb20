use vstd::prelude::*;

use crate::body::InteriorValue;
use crate::body::InteriorValueView;
use crate::span::Span;

verus! {

/// The identifier under which the host registers this analysis. It owns a
/// single rule.
#[derive(Clone, Copy, Debug, PartialEq, Eq, Structural)]
pub enum LintId {
    MayBlock,
}

/// The fixed text attached to the primary span of every diagnostic this
/// analysis emits.
pub open spec fn primary_message() -> Seq<char> {
    "this blocking function can slow down the async runtime. consider using a non-blocking alternative from the async ecosystem of your runtime."@
}

/// The fixed text attached to the secondary span.
pub open spec fn secondary_message() -> Seq<char> {
    "these are all the await points this lock is held through"@
}

/// The mathematical content of one diagnostic.
pub ghost struct DiagnosticView {
    pub lint: LintId,
    pub primary_span: Span,
    pub primary_message: Seq<char>,
    pub secondary_span: Span,
    pub secondary_message: Seq<char>,
}

/// One violation record, ready for the host's diagnostic sink: the rule it
/// belongs to, a primary location with its message, and a secondary location
/// with its note. The sink decides rendering, severity overrides and
/// suppression; this crate only fixes the content.
#[derive(Clone, Debug, PartialEq, Eq)]
pub struct Diagnostic {
    pub lint: LintId,
    pub primary_span: Span,
    pub primary_message: String,
    pub secondary_span: Span,
    pub secondary_message: String,
}

impl View for Diagnostic {
    type V = DiagnosticView;

    open spec fn view(&self) -> DiagnosticView {
        DiagnosticView {
            lint: self.lint,
            primary_span: self.primary_span,
            primary_message: self.primary_message@,
            secondary_span: self.secondary_span,
            secondary_message: self.secondary_message@,
        }
    }
}

impl DeepView for Diagnostic {
    type V = DiagnosticView;

    open spec fn deep_view(&self) -> DiagnosticView {
        self.view()
    }
}

/// The one diagnostic reported for an offending interior value: the primary
/// span is the value's declaration span; the secondary span is the value's
/// scope span when the type checker recorded one, and the enclosing body's
/// span otherwise.
pub open spec fn diagnostic_for(value: InteriorValueView, body_span: Span) -> DiagnosticView {
    DiagnosticView {
        lint: LintId::MayBlock,
        primary_span: value.span,
        primary_message: primary_message(),
        secondary_span: match value.scope_span {
            Some(scope) => scope,
            None => body_span,
        },
        secondary_message: secondary_message(),
    }
}

/// Builds the diagnostic for one interior value whose type matched the
/// registry. The secondary-span rule is stated here in full: the scope span
/// when present, the body's span as the fallback.
pub fn emit_diagnostic(value: &InteriorValue, body_span: Span) -> (d: Diagnostic)
    ensures
        d@ == diagnostic_for(value@, body_span),
        d.primary_span == value.span,
        value.scope_span is Some ==> d.secondary_span == value.scope_span->0,
        value.scope_span is None ==> d.secondary_span == body_span,
{
    let secondary_span: Span = match value.scope_span {
        Some(scope) => scope,
        None => body_span,
    };
    Diagnostic {
        lint: LintId::MayBlock,
        primary_span: value.span,
        primary_message: String::from_str(
            "this blocking function can slow down the async runtime. consider using a non-blocking alternative from the async ecosystem of your runtime.",
        ),
        secondary_span,
        secondary_message: String::from_str(
            "these are all the await points this lock is held through",
        ),
    }
}

/// The lint's registered name.
pub fn lint_name() -> (name: String)
    ensures
        name@ == "may_block"@,
{
    String::from_str("may_block")
}

/// The lint's fixed severity classification, as the host lists it.
pub fn lint_severity() -> (severity: String)
    ensures
        severity@ == "correctness"@,
{
    String::from_str("correctness")
}

/// The one-line description the host shows beside the lint's name.
pub fn lint_description() -> (description: String)
    ensures
        description@ == "Using blocking functions in async code can slow down the async runtime"@,
{
    String::from_str("Using blocking functions in async code can slow down the async runtime")
}

} // verus!
