use icrc1_test_suite::metadata::{test_metadata, MetadataScenario};
use icrc1_test_suite::protocol::{Act, Reply, Request};
use icrc1_test_suite::{Outcome, Value};

fn entry(key: &str, v: Value) -> (String, Value) {
    (key.to_string(), v)
}

fn query(res: (MetadataScenario, Act)) -> (MetadataScenario, Request) {
    match res.1 {
        Act::Query(q) => (res.0, q),
        Act::Done(_) => panic!("expected another query"),
    }
}

fn snapshot(entries: Vec<(String, Value)>) -> (MetadataScenario, Act) {
    let m = test_metadata();
    let (m, q) = query(m.step(Reply::Begin));
    assert!(matches!(q, Request::Metadata));
    m.step(Reply::Metadata { entries })
}

/// Present well-known keys are cross-checked against their endpoints and
/// the scenario passes when all of them agree.
#[test]
fn metadata_consistent_snapshot_passes() {
    let entries = vec![
        entry("icrc1:name", Value::Text("Token".to_string())),
        entry("icrc1:fee", Value::Nat(10)),
    ];
    let (m, q) = query(snapshot(entries));
    assert!(matches!(q, Request::TokenName));
    let (m, q) = query(m.step(Reply::TokenName { name: "Token".to_string() }));
    assert!(matches!(q, Request::Fee));
    match m.step(Reply::Fee { amount: 10 }).1 {
        Act::Done(Ok(Outcome::Passed)) => {},
        _ => panic!("a consistent snapshot must pass"),
    }
}

/// An empty snapshot skips every cross-check and passes.
#[test]
fn metadata_empty_snapshot_passes() {
    match snapshot(vec![]).1 {
        Act::Done(Ok(Outcome::Passed)) => {},
        _ => panic!("an empty snapshot must pass"),
    }
}

/// A key bound twice fails the scenario and names the key.
#[test]
fn metadata_duplicate_key_fails() {
    let entries = vec![
        entry("icrc1:name", Value::Text("a".to_string())),
        entry("icrc1:name", Value::Text("b".to_string())),
    ];
    match snapshot(entries).1 {
        Act::Done(Err(f)) => {
            assert_eq!(f.notes, vec!["Key icrc1:name is duplicated in the metadata".to_string()]);
        },
        _ => panic!("a duplicated key must fail the scenario"),
    }
}

/// A fee entry that disagrees with the live fee endpoint fails the
/// scenario, naming the key and showing both values.
#[test]
fn metadata_fee_mismatch_fails() {
    let entries = vec![entry("icrc1:fee", Value::Nat(7))];
    let (m, q) = query(snapshot(entries));
    assert!(matches!(q, Request::Fee));
    match m.step(Reply::Fee { amount: 10 }).1 {
        Act::Done(Err(f)) => {
            assert_eq!(f.notes.len(), 2);
            assert_eq!(f.notes[0], "icrc1:fee metadata entry does not match the icrc1_fee endpoint");
            assert_eq!(f.notes[1], "nat:10 != nat:7");
        },
        _ => panic!("a fee mismatch must fail the scenario"),
    }
}

/// Decimals are compared as numbers against the dedicated endpoint.
#[test]
fn metadata_decimals_cross_check() {
    let entries = vec![entry("icrc1:decimals", Value::Nat(8))];
    let (m, q) = query(snapshot(entries));
    assert!(matches!(q, Request::TokenDecimals));
    match m.step(Reply::TokenDecimals { decimals: 8 }).1 {
        Act::Done(Ok(Outcome::Passed)) => {},
        _ => panic!("matching decimals must pass"),
    }
}

/// The symbol cross-check fails on a symbol that differs only in case.
#[test]
fn metadata_symbol_mismatch_fails() {
    let entries = vec![entry("icrc1:symbol", Value::Text("TOK".to_string()))];
    let (m, q) = query(snapshot(entries));
    assert!(matches!(q, Request::TokenSymbol));
    match m.step(Reply::TokenSymbol { symbol: "tok".to_string() }).1 {
        Act::Done(Err(f)) => {
            assert_eq!(
                f.notes[0],
                "icrc1:symbol metadata entry does not match the icrc1_symbol endpoint"
            );
            assert_eq!(f.notes[1], "text:tok != text:TOK");
        },
        _ => panic!("a symbol mismatch must fail the scenario"),
    }
}
