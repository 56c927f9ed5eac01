use icrc1_test_suite::account::Account;
use icrc1_test_suite::burn::{test_burn, BurnScenario};
use icrc1_test_suite::protocol::{Act, Reply, Request};
use icrc1_test_suite::Outcome;

fn acct(tag: u8) -> Account {
    Account { owner: vec![tag], subaccount: None }
}

fn query(res: (BurnScenario, Act)) -> (BurnScenario, Request) {
    match res.1 {
        Act::Query(q) => (res.0, q),
        Act::Done(_) => panic!("expected another query"),
    }
}

fn run_to_burn(caller_balance: u128) -> (BurnScenario, Request) {
    let m = test_burn(acct(9));
    let (m, _) = query(m.step(Reply::Begin));
    let (m, _) = query(m.step(Reply::Balance { amount: caller_balance }));
    let (m, _) = query(m.step(Reply::Fee { amount: 10 }));
    let (m, _) = query(m.step(Reply::Forked { account: acct(1) }));
    let (m, _) = query(m.step(Reply::Balance { amount: 0 }));
    let (m, _) = query(m.step(Reply::Transferred { result: Ok(1) }));
    query(m.step(Reply::Balance { amount: 10_000 }))
}

/// A fresh account seeded with 10000 burns it all and ends at exactly
/// zero.
#[test]
fn burn_happy_path_passes() {
    let (m, q) = run_to_burn(40_000);
    match &q {
        Request::Burn { from, amount } => {
            assert_eq!(from.owner, vec![1]);
            assert_eq!(*amount, 10_000);
        },
        _ => panic!("expected the burn request"),
    }
    let (m, q) = query(m.step(Reply::Burned { result: Ok(2) }));
    assert!(matches!(q, Request::Balance { .. }));
    match m.step(Reply::Balance { amount: 0 }).1 {
        Act::Done(Ok(Outcome::Passed)) => {},
        _ => panic!("the burn scenario must pass"),
    }
}

/// A burn the ledger rejects yields a failed outcome, never a pass.
#[test]
fn burn_rejection_fails() {
    let (m, _q) = run_to_burn(40_000);
    match m.step(Reply::Burned { result: Err("InsufficientFunds".to_string()) }).1 {
        Act::Done(Err(f)) => {
            assert_eq!(f.notes.len(), 2);
            assert_eq!(f.notes[0], "failed to burn amount");
            assert_eq!(f.notes[1], "InsufficientFunds");
        },
        _ => panic!("a rejected burn must fail the scenario"),
    }
}

/// A balance left over after the burn fails the scenario.
#[test]
fn burn_leftover_balance_fails() {
    let (m, _q) = run_to_burn(40_000);
    let (m, _q) = query(m.step(Reply::Burned { result: Ok(2) }));
    match m.step(Reply::Balance { amount: 1 }).1 {
        Act::Done(Err(f)) => {
            assert_eq!(f.notes[0], "Expected the balance of account 01 to be 0, got 1");
        },
        _ => panic!("a leftover balance must fail the scenario"),
    }
}
