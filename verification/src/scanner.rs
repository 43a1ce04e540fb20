use vstd::prelude::*;

use crate::body::Body;
use crate::body::GeneratorKind;
use crate::body::InteriorValue;
use crate::body::InteriorValueView;
use crate::body::TypeckResults;
use crate::body::is_async_body;
use crate::diagnostics::Diagnostic;
use crate::diagnostics::DiagnosticView;
use crate::diagnostics::diagnostic_for;
use crate::diagnostics::emit_diagnostic;
use crate::matcher::is_blocking;
use crate::matcher::type_is_blocking;
use crate::registry::BlockingPrimitiveSet;
use crate::span::Span;

verus! {

/// An interior value is flagged exactly when its nominal type matches the
/// registry.
pub open spec fn value_is_blocking(reg: Seq<Seq<Seq<char>>>, value: InteriorValueView) -> bool {
    type_is_blocking(reg, value.ty)
}

/// The diagnostics for a list of interior values: one diagnostic per value
/// whose type matches the registry, in the order the type checker recorded
/// the values. Values that do not match — including every value without a
/// nominal type — contribute nothing.
pub open spec fn interior_diagnostics(
    reg: Seq<Seq<Seq<char>>>,
    causes: Seq<InteriorValueView>,
    body_span: Span,
) -> Seq<DiagnosticView>
    decreases causes.len(),
{
    if causes.len() == 0 {
        Seq::empty()
    } else {
        let prefix = interior_diagnostics(reg, causes.drop_last(), body_span);
        if value_is_blocking(reg, causes.last()) {
            prefix.push(diagnostic_for(causes.last(), body_span))
        } else {
            prefix
        }
    }
}

/// What the whole analysis of one compiled body produces. A body that is not
/// asynchronous is out of scope, and a body whose type-check results are
/// unavailable is skipped silently: both produce nothing.
pub open spec fn body_diagnostics(
    reg: Seq<Seq<Seq<char>>>,
    kind: Option<GeneratorKind>,
    body_span: Span,
    causes: Option<Seq<InteriorValueView>>,
) -> Seq<DiagnosticView> {
    if is_async_body(kind) {
        match causes {
            Some(recorded) => interior_diagnostics(reg, recorded, body_span),
            None => Seq::empty(),
        }
    } else {
        Seq::empty()
    }
}

/// The interior values an optional set of type-check results records.
pub open spec fn typeck_causes(typeck: Option<&TypeckResults>) -> Option<Seq<InteriorValueView>> {
    match typeck {
        Some(results) => Some(results.generator_interior_types.deep_view()),
        None => None,
    }
}

/// Walks the recorded interior values of one asynchronous body and collects
/// one diagnostic for each value whose type matches the registry. `span` is
/// the enclosing body's span, used as the fallback secondary location.
pub fn check_interior_types(
    registry: &BlockingPrimitiveSet,
    ty_causes: &Vec<InteriorValue>,
    span: Span,
) -> (diags: Vec<Diagnostic>)
    ensures
        diags.deep_view() == interior_diagnostics(registry@, ty_causes.deep_view(), span),
{
    let mut diags: Vec<Diagnostic> = Vec::new();
    proof {
        assert(diags.deep_view() =~= Seq::<DiagnosticView>::empty());
        assert(ty_causes.deep_view().take(0) =~= Seq::<InteriorValueView>::empty());
    }
    let n: usize = ty_causes.len();
    let mut i: usize = 0;
    while i < n
        invariant
            0 <= i <= n,
            n == ty_causes.len(),
            diags.deep_view() == interior_diagnostics(
                registry@,
                ty_causes.deep_view().take(i as int),
                span,
            ),
        decreases n - i,
    {
        let ty_cause = &ty_causes[i];
        let ghost prefix = diags.deep_view();
        if is_blocking(registry, &ty_cause.ty) {
            let d = emit_diagnostic(ty_cause, span);
            diags.push(d);
            proof {
                assert(diags.deep_view() =~= prefix.push(d@));
            }
        }
        proof {
            let causes = ty_causes.deep_view();
            assert(causes.take(i + 1).drop_last() =~= causes.take(i as int));
            assert(causes.take(i + 1).last() == causes[i as int]);
            assert(causes[i as int] == ty_cause@);
        }
        i = i + 1;
    }
    proof {
        assert(ty_causes.deep_view().take(n as int) =~= ty_causes.deep_view());
    }
    diags
}

/// The analysis unit the host registers. It keeps no state of its own: each
/// body is processed in one linear pass, and nothing carries over from one
/// body to the next.
pub struct MayBlock;

impl MayBlock {
    /// Entry point, invoked once per compiled body. Only a body whose
    /// generator classification denotes asynchronous execution — a plain
    /// async function, an async closure or an async block, all treated
    /// uniformly — is analyzed; for it, the recorded interior values are
    /// checked against the registry. A body whose type-check results are
    /// unavailable is skipped silently.
    pub fn check_body(
        &self,
        registry: &BlockingPrimitiveSet,
        body: &Body,
        typeck: Option<&TypeckResults>,
    ) -> (diags: Vec<Diagnostic>)
        ensures
            diags.deep_view() == body_diagnostics(
                registry@,
                body.generator_kind,
                body.span,
                typeck_causes(typeck),
            ),
    {
        match body.generator_kind {
            Some(GeneratorKind::Async(_)) => match typeck {
                Some(results) => check_interior_types(
                    registry,
                    &results.generator_interior_types,
                    body.span,
                ),
                None => {
                    let diags: Vec<Diagnostic> = Vec::new();
                    proof {
                        assert(diags.deep_view() =~= Seq::<DiagnosticView>::empty());
                    }
                    diags
                },
            },
            _ => {
                let diags: Vec<Diagnostic> = Vec::new();
                proof {
                    assert(diags.deep_view() =~= Seq::<DiagnosticView>::empty());
                }
                diags
            },
        }
    }
}

/// An asynchronous body none of whose interior values matches the registry
/// produces no diagnostics at all.
pub proof fn lemma_no_match_no_diagnostics(
    reg: Seq<Seq<Seq<char>>>,
    causes: Seq<InteriorValueView>,
    body_span: Span,
)
    requires
        forall|i: int| 0 <= i < causes.len() ==> !value_is_blocking(reg, #[trigger] causes[i]),
    ensures
        interior_diagnostics(reg, causes, body_span).len() == 0,
    decreases causes.len(),
{
    if causes.len() > 0 {
        assert(causes.last() == causes[causes.len() - 1]);
        assert(forall|i: int|
            0 <= i < causes.drop_last().len() ==> causes.drop_last()[i] == causes[i]);
        lemma_no_match_no_diagnostics(reg, causes.drop_last(), body_span);
    }
}

/// An asynchronous body with exactly one interior value whose type matches
/// the registry produces exactly one diagnostic: the one built for that
/// value, with the value's declaration span as its primary span.
pub proof fn lemma_single_match_single_diagnostic(
    reg: Seq<Seq<Seq<char>>>,
    causes: Seq<InteriorValueView>,
    body_span: Span,
    k: int,
)
    requires
        0 <= k < causes.len(),
        value_is_blocking(reg, causes[k]),
        forall|i: int|
            0 <= i < causes.len() && i != k ==> !value_is_blocking(reg, #[trigger] causes[i]),
    ensures
        interior_diagnostics(reg, causes, body_span).len() == 1,
        interior_diagnostics(reg, causes, body_span)[0] == diagnostic_for(causes[k], body_span),
        interior_diagnostics(reg, causes, body_span)[0].primary_span == causes[k].span,
    decreases causes.len(),
{
    assert(forall|i: int|
        0 <= i < causes.drop_last().len() ==> causes.drop_last()[i] == causes[i]);
    if k == causes.len() - 1 {
        lemma_no_match_no_diagnostics(reg, causes.drop_last(), body_span);
        assert(causes.last() == causes[k]);
    } else {
        assert(causes.last() == causes[causes.len() - 1]);
        lemma_single_match_single_diagnostic(reg, causes.drop_last(), body_span, k);
    }
}

/// Determinism: the diagnostics for a body are a function of the registry,
/// the body's classification and span, and its recorded interior values, and
/// of nothing else. Any two diagnostic lists that satisfy the analysis entry
/// point's contract for the same inputs are identical — same length, same
/// records, same order.
pub proof fn lemma_rerun_yields_identical_diagnostics(
    reg: Seq<Seq<Seq<char>>>,
    kind: Option<GeneratorKind>,
    body_span: Span,
    causes: Option<Seq<InteriorValueView>>,
    first: Seq<DiagnosticView>,
    second: Seq<DiagnosticView>,
)
    requires
        first == body_diagnostics(reg, kind, body_span, causes),
        second == body_diagnostics(reg, kind, body_span, causes),
    ensures
        first == second,
{
}

} // verus!
