use icrc1_test_suite::account::Account;
use icrc1_test_suite::protocol::{Act, Reply, Request};
use icrc1_test_suite::transfer::{test_transfer, TransferScenario};
use icrc1_test_suite::{Failure, Outcome};

fn acct(tag: u8) -> Account {
    Account { owner: vec![tag], subaccount: None }
}

fn query(res: (TransferScenario, Act)) -> (TransferScenario, Request) {
    match res.1 {
        Act::Query(q) => (res.0, q),
        Act::Done(r) => panic!("expected another query, got a result: done={}", r.is_ok()),
    }
}

fn balance(m: TransferScenario, v: u128) -> (TransferScenario, Act) {
    m.step(Reply::Balance { amount: v })
}

/// Drives the transfer scenario through the happy path: caller holds
/// 40000, fee is 10, both forks are seeded with 20000, 10000 moves over,
/// the sender ends at 9990 and the receiver at 30000 under both
/// subaccount forms.
#[test]
fn transfer_happy_path_passes() {
    let caller = acct(9);
    let m = test_transfer(caller);

    // First setup: fund the sender account.
    let (m, q) = query(m.step(Reply::Begin));
    assert!(matches!(q, Request::Balance { .. }));
    let (m, q) = query(balance(m, 40_000));
    assert!(matches!(q, Request::Fee));
    let (m, q) = query(m.step(Reply::Fee { amount: 10 }));
    assert!(matches!(q, Request::Fork));
    let (m, q) = query(m.step(Reply::Forked { account: acct(1) }));
    assert!(matches!(q, Request::Balance { .. }));
    let (m, q) = query(balance(m, 0));
    match &q {
        Request::Transfer { from, to, amount } => {
            assert_eq!(from.owner, vec![9]);
            assert_eq!(to.owner, vec![1]);
            assert_eq!(*amount, 20_000);
        },
        _ => panic!("expected the seeding transfer"),
    }
    let (m, _q) = query(m.step(Reply::Transferred { result: Ok(1) }));
    let (m, q) = query(balance(m, 20_000));
    // Second setup: fund the receiver account.
    assert!(matches!(q, Request::Balance { .. }));
    let (m, _q) = query(balance(m, 40_000));
    let (m, _q) = query(m.step(Reply::Fee { amount: 10 }));
    let (m, q) = query(m.step(Reply::Forked { account: acct(2) }));
    assert!(matches!(q, Request::Balance { .. }));
    let (m, q) = query(balance(m, 0));
    assert!(matches!(q, Request::Transfer { .. }));
    let (m, _q) = query(m.step(Reply::Transferred { result: Ok(2) }));
    let (m, q) = query(balance(m, 20_000));

    // Balances before the measured transfer.
    assert!(matches!(q, Request::Balance { .. }));
    let (m, q) = query(balance(m, 20_000));
    assert!(matches!(q, Request::Balance { .. }));
    let (m, q) = query(balance(m, 20_000));
    match &q {
        Request::Transfer { from, to, amount } => {
            assert_eq!(from.owner, vec![1]);
            assert_eq!(to.owner, vec![2]);
            assert_eq!(*amount, 10_000);
        },
        _ => panic!("expected the measured transfer"),
    }
    let (m, q) = query(m.step(Reply::Transferred { result: Ok(3) }));

    // Receiver gained exactly the amount, absent subaccount form.
    match &q {
        Request::Balance { account } => {
            assert_eq!(account.owner, vec![2]);
            assert!(account.subaccount.is_none());
        },
        _ => panic!("expected the receiver balance query"),
    }
    let (m, q) = query(balance(m, 30_000));

    // Same balance through the explicit all-zero subaccount.
    match &q {
        Request::Balance { account } => {
            assert_eq!(account.owner, vec![2]);
            assert_eq!(account.subaccount.as_deref(), Some(&[0u8; 32][..]));
        },
        _ => panic!("expected the zero-subaccount balance query"),
    }
    let (m, q) = query(balance(m, 30_000));

    // Sender lost exactly amount plus fee.
    assert!(matches!(q, Request::Fee));
    let (m, q) = query(m.step(Reply::Fee { amount: 10 }));
    match &q {
        Request::Balance { account } => assert_eq!(account.owner, vec![1]),
        _ => panic!("expected the sender balance query"),
    }
    let (_m, act) = balance(m, 9_990);
    match act {
        Act::Done(Ok(Outcome::Passed)) => {},
        _ => panic!("the happy path must pass"),
    }
}

fn run_to_credited_check(seed_extra: u128) -> TransferScenario {
    let m = test_transfer(acct(9));
    let (m, _) = query(m.step(Reply::Begin));
    let (m, _) = query(balance(m, 40_000 + seed_extra));
    let (m, _) = query(m.step(Reply::Fee { amount: 10 }));
    let (m, _) = query(m.step(Reply::Forked { account: acct(1) }));
    let (m, _) = query(balance(m, 0));
    let (m, _) = query(m.step(Reply::Transferred { result: Ok(1) }));
    let (m, _) = query(balance(m, 20_000));
    let (m, _) = query(balance(m, 40_000));
    let (m, _) = query(m.step(Reply::Fee { amount: 10 }));
    let (m, _) = query(m.step(Reply::Forked { account: acct(2) }));
    let (m, _) = query(balance(m, 0));
    let (m, _) = query(m.step(Reply::Transferred { result: Ok(2) }));
    let (m, _) = query(balance(m, 20_000));
    let (m, _) = query(balance(m, 20_000));
    let (m, _) = query(balance(m, 20_000));
    let (m, _) = query(m.step(Reply::Transferred { result: Ok(3) }));
    m
}

fn failure_of(act: Act) -> Failure {
    match act {
        Act::Done(Err(f)) => f,
        _ => panic!("expected the scenario to fail"),
    }
}

/// A receiver balance off by one fails the scenario and names the
/// account and both values.
#[test]
fn transfer_wrong_credit_fails() {
    let m = run_to_credited_check(0);
    let f = failure_of(balance(m, 29_999).1);
    assert_eq!(f.notes.len(), 1);
    assert_eq!(f.notes[0], "Expected the balance of account 02 to be 30000, got 29999");
}

/// A ledger that distinguishes the absent subaccount from the all-zero
/// one fails the scenario with the dedicated context note.
#[test]
fn transfer_zero_subaccount_mismatch_fails() {
    let m = run_to_credited_check(0);
    let (m, _) = query(balance(m, 30_000));
    let f = failure_of(balance(m, 20_000).1);
    assert_eq!(f.notes.len(), 2);
    assert_eq!(
        f.notes[0],
        "the ledger does not treat accounts with an empty subaccount as accounts with the default subaccount"
    );
    assert!(f.notes[1].starts_with("Expected the balance of account 02."));
}

/// A caller that cannot cover the seed amount plus the fee fails the
/// scenario rather than aborting the run.
#[test]
fn transfer_underfunded_caller_fails() {
    let m = test_transfer(acct(9));
    let (m, _) = query(m.step(Reply::Begin));
    let (m, _) = query(balance(m, 15_000));
    let f = failure_of(m.step(Reply::Fee { amount: 10 }).1);
    assert_eq!(f.notes.len(), 1);
    assert_eq!(
        f.notes[0],
        "account balance 15000 cannot cover the amount 20000 and the transfer fee 10"
    );
}

/// A transport fault fails only this scenario and keeps its message.
#[test]
fn transfer_transport_fault_fails() {
    let m = test_transfer(acct(9));
    let (m, _) = query(m.step(Reply::Begin));
    let f = failure_of(m.step(Reply::Broken { message: "connection reset".to_string() }).1);
    assert_eq!(f.notes, vec!["connection reset".to_string()]);
}

/// A seeding transfer the ledger rejects fails the scenario with the
/// transfer context note.
#[test]
fn transfer_seeding_rejection_fails() {
    let m = test_transfer(acct(9));
    let (m, _) = query(m.step(Reply::Begin));
    let (m, _) = query(balance(m, 40_000));
    let (m, _) = query(m.step(Reply::Fee { amount: 10 }));
    let (m, _) = query(m.step(Reply::Forked { account: acct(1) }));
    let (m, _) = query(balance(m, 0));
    let f = failure_of(
        m.step(Reply::Transferred { result: Err("InsufficientFunds".to_string()) }).1,
    );
    assert_eq!(f.notes.len(), 2);
    assert_eq!(f.notes[0], "failed to transfer 20000 tokens to 01");
    assert_eq!(f.notes[1], "InsufficientFunds");
}
