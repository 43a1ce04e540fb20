use may_block::AsyncBodyKind;
use may_block::BlockingPrimitiveSet;
use may_block::Body;
use may_block::DefId;
use may_block::GeneratorKind;
use may_block::InteriorValue;
use may_block::LintId;
use may_block::MayBlock;
use may_block::Span;
use may_block::TypeDescriptor;
use may_block::TypePath;
use may_block::TypeckResults;
use may_block::diagnostics::lint_description;
use may_block::diagnostics::lint_name;
use may_block::diagnostics::lint_severity;
use may_block::matcher::is_blocking;

fn string_path(segments: &[&str]) -> TypePath {
    let mut v: Vec<String> = Vec::new();
    for s in segments {
        v.push((*s).to_string());
    }
    TypePath::new(v)
}

#[test]
fn diagnostic_carries_the_fixed_messages() {
    let registry = BlockingPrimitiveSet::thread_sleep_only();
    let body = Body {
        owner: DefId { index: 1 },
        span: Span { lo: 0, hi: 200 },
        generator_kind: Some(GeneratorKind::Async(AsyncBodyKind::Block)),
    };
    let typeck = TypeckResults {
        generator_interior_types: vec![InteriorValue {
            ty: TypeDescriptor::Nominal(TypePath::thread_sleep()),
            span: Span { lo: 10, hi: 20 },
            scope_span: None,
        }],
    };
    let diags = MayBlock.check_body(&registry, &body, Some(&typeck));
    assert_eq!(diags.len(), 1);
    assert_eq!(diags[0].lint, LintId::MayBlock);
    assert_eq!(
        diags[0].primary_message,
        "this blocking function can slow down the async runtime. consider using a non-blocking alternative from the async ecosystem of your runtime."
    );
    assert_eq!(
        diags[0].secondary_message,
        "these are all the await points this lock is held through"
    );
}

#[test]
fn lint_metadata_is_fixed() {
    assert_eq!(lint_name(), "may_block");
    assert_eq!(lint_severity(), "correctness");
    assert_eq!(
        lint_description(),
        "Using blocking functions in async code can slow down the async runtime"
    );
}

#[test]
fn thread_sleep_path_spells_the_primitive() {
    let expected = string_path(&["std", "thread", "sleep"]);
    assert_eq!(TypePath::thread_sleep(), expected);
    assert!(TypePath::thread_sleep().equals(&expected));
}

#[test]
fn path_equality_is_exact() {
    let sleep = string_path(&["std", "thread", "sleep"]);
    assert!(sleep.equals(&string_path(&["std", "thread", "sleep"])));
    assert!(!sleep.equals(&string_path(&["std", "thread"])));
    assert!(!sleep.equals(&string_path(&["thread", "sleep"])));
    assert!(!sleep.equals(&string_path(&["std", "thread", "sleep", "ms"])));
    assert!(!sleep.equals(&string_path(&["other", "thread", "sleep"])));
    assert!(!sleep.equals(&string_path(&[])));
}

#[test]
fn matcher_is_pure_and_reports_nominal_matches_only() {
    let registry = BlockingPrimitiveSet::thread_sleep_only();
    let matching = TypeDescriptor::Nominal(string_path(&["std", "thread", "sleep"]));
    let near_miss = TypeDescriptor::Nominal(string_path(&["std", "thread", "spawn"]));
    let non_nominal = TypeDescriptor::NonNominal;
    assert!(is_blocking(&registry, &matching));
    assert!(!is_blocking(&registry, &near_miss));
    assert!(!is_blocking(&registry, &non_nominal));
    assert!(is_blocking(&registry, &matching));
    assert_eq!(registry, BlockingPrimitiveSet::thread_sleep_only());
}
