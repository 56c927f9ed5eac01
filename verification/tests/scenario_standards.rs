use icrc1_test_suite::protocol::{Act, Reply, Request, StandardRecord};
use icrc1_test_suite::standards::test_supported_standards;
use icrc1_test_suite::Outcome;

fn std_rec(name: &str) -> StandardRecord {
    StandardRecord { name: name.to_string(), url: format!("https://example.com/{}", name) }
}

fn run(standards: Vec<StandardRecord>) -> Act {
    let m = test_supported_standards();
    let (m, act) = {
        let (m, act) = m.step(Reply::Begin);
        match act {
            Act::Query(Request::Standards) => (m, act),
            _ => panic!("expected the standards query"),
        }
    };
    let _ = act;
    m.step(Reply::Standards { standards }).1
}

/// A ledger that advertises only another standard fails, and the
/// diagnostic embeds the list received.
#[test]
fn standards_missing_icrc1_fails() {
    match run(vec![std_rec("ICRC-2")]) {
        Act::Done(Err(f)) => {
            assert_eq!(f.notes, vec![
                "The ledger does not claim support for ICRC-1: ICRC-2".to_string(),
            ]);
        },
        _ => panic!("a ledger without the canonical standard must fail"),
    }
}

/// The canonical name anywhere in the list passes.
#[test]
fn standards_with_icrc1_passes() {
    match run(vec![std_rec("ICRC-2"), std_rec("ICRC-1")]) {
        Act::Done(Ok(Outcome::Passed)) => {},
        _ => panic!("a ledger advertising the canonical standard must pass"),
    }
}

/// An empty list fails with an empty tail after the fixed message.
#[test]
fn standards_empty_list_fails() {
    match run(vec![]) {
        Act::Done(Err(f)) => {
            assert_eq!(f.notes[0], "The ledger does not claim support for ICRC-1: ");
        },
        _ => panic!("an empty list must fail"),
    }
}

/// The diagnostic joins every advertised name in order.
#[test]
fn standards_list_is_joined_in_order() {
    match run(vec![std_rec("ICRC-2"), std_rec("ICRC-3"), std_rec("ICRC-7")]) {
        Act::Done(Err(f)) => {
            assert_eq!(
                f.notes[0],
                "The ledger does not claim support for ICRC-1: ICRC-2, ICRC-3, ICRC-7"
            );
        },
        _ => panic!("the list must fail without the canonical standard"),
    }
}
