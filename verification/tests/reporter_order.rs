use icrc1_test_suite::reporter::Reporter;
use icrc1_test_suite::{Failure, Outcome, TestResult};

fn names(list: &[&str]) -> Vec<String> {
    list.iter().map(|s| s.to_string()).collect()
}

fn drain(rep: &mut Reporter) {
    while rep.emit_next() {}
}

fn passed() -> TestResult {
    Ok(Outcome::Passed)
}

/// Completions arrive in fully reversed order (fast-last, slow-first),
/// yet the report lists the units strictly in submission order.
#[test]
fn reversed_completion_order_reports_in_submission_order() {
    let mut rep = Reporter::new(names(&["a", "b", "c", "d"]));
    assert_eq!(rep.lines, vec!["TAP version 14".to_string(), "1..4".to_string()]);

    rep.record(3, passed());
    drain(&mut rep);
    assert_eq!(rep.lines.len(), 2, "nothing may be emitted before the first unit is in");
    rep.record(2, Ok(Outcome::Skipped { reason: "not supported".to_string() }));
    drain(&mut rep);
    assert_eq!(rep.lines.len(), 2);
    rep.record(1, Err(Failure::msg("boom".to_string()).context("while burning".to_string())));
    drain(&mut rep);
    assert_eq!(rep.lines.len(), 2);
    rep.record(0, passed());
    drain(&mut rep);

    assert!(rep.finished());
    assert_eq!(rep.lines, vec![
        "TAP version 14".to_string(),
        "1..4".to_string(),
        "ok 1 - a".to_string(),
        "# while burning".to_string(),
        "# boom".to_string(),
        "not ok 2 - b".to_string(),
        "ok 3 - c # SKIP not supported".to_string(),
        "ok 4 - d".to_string(),
    ]);
    assert!(!rep.success(), "a failed unit must fail the aggregate");
}

/// A prefix whose results are in is emitted at once, without waiting for
/// later units.
#[test]
fn ready_prefix_streams_early() {
    let mut rep = Reporter::new(names(&["a", "b", "c"]));
    rep.record(0, passed());
    drain(&mut rep);
    assert_eq!(rep.lines.len(), 3);
    assert_eq!(rep.lines[2], "ok 1 - a");
    assert!(!rep.finished());
    rep.record(2, passed());
    drain(&mut rep);
    assert_eq!(rep.lines.len(), 3, "unit three must wait for unit two");
    rep.record(1, passed());
    drain(&mut rep);
    assert!(rep.finished());
    assert_eq!(rep.lines[3], "ok 2 - b");
    assert_eq!(rep.lines[4], "ok 3 - c");
    assert!(rep.success());
}

/// Skipped units do not fail the aggregate.
#[test]
fn skips_keep_the_aggregate_true() {
    let mut rep = Reporter::new(names(&["only"]));
    rep.record(0, Ok(Outcome::Skipped { reason: "no transaction capability".to_string() }));
    drain(&mut rep);
    assert!(rep.finished());
    assert!(rep.success());
    assert_eq!(rep.lines[2], "ok 1 - only # SKIP no transaction capability");
}
