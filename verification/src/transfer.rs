use vstd::prelude::*;
use crate::account::{zero_subaccount, Account, AccountView};
use crate::assertions::{add_checked, balance_failure, balance_msg_view};
use crate::diag::{default_subaccount_ctx, default_subaccount_ctx_view, overflow_msg,
    overflow_msg_view, underfunded_msg, underfunded_msg_view, unexpected_msg,
    unexpected_msg_view};
use crate::failure::Failure;
use crate::protocol::{Act, Reply, Request};
use crate::setup::{setup_rel, SetupAct, SetupMachine, SetupState};
use crate::Outcome;

verus! {

/// The balance each of the two scenario accounts is seeded with.
pub const SEED_AMOUNT: u128 = 20_000;

/// The amount moved from the first scenario account to the second.
pub const TRANSFER_AMOUNT: u128 = 10_000;

/// Where the transfer conformance scenario stands: two fundings of fresh
/// accounts, then the transfer and its three balance checks.
pub enum TransferState {
    Begin,
    SetupFirst { m: SetupMachine },
    SetupSecond { first: Account, m: SetupMachine },
    AwaitFirstBalance { first: Account, second: Account },
    AwaitSecondBalance { first: Account, second: Account, first_balance: u128 },
    AwaitTransfer { first: Account, second: Account, first_balance: u128, second_balance: u128 },
    AwaitCredited { first: Account, second: Account, first_balance: u128, second_balance: u128 },
    AwaitCreditedZero {
        first: Account,
        second: Account,
        first_balance: u128,
        second_balance: u128,
    },
    AwaitFeeQuote { first: Account, first_balance: u128 },
    AwaitDebited { first: Account, first_balance: u128, fee: u128 },
    Finished,
}

/// Checks that the ledger supports transfers and handles the default
/// subaccount correctly: after moving tokens, the receiver gains exactly
/// the amount (whether addressed with an absent or an explicit all-zero
/// subaccount) and the sender loses exactly the amount plus the fee.
pub struct TransferScenario {
    pub caller: Account,
    pub state: TransferState,
}

/// The owner addressed through the explicit all-zero subaccount.
pub open spec fn zeroed(a: AccountView) -> AccountView {
    AccountView { owner: a.owner, subaccount: Some(zero_subaccount()) }
}

/// Law: for a receiver whose subaccount is absent, the explicit form the
/// scenario queries is exactly the account's canonical form, so the two
/// balance checks address the same logical account.
pub proof fn lemma_zeroed_is_canonical(a: AccountView)
    requires
        a.subaccount is None,
    ensures
        zeroed(a) == crate::account::canonical(a),
{
}

/// The transition relation of the transfer scenario. The three balance
/// checks are exact: the scenario walks on only when the receiver holds
/// its old balance plus the transferred amount (under both subaccount
/// forms), and passes only when the sender holds its old balance less the
/// amount and the fee.
pub open spec fn transfer_rel(
    pre: TransferScenario,
    r: Reply,
    post: TransferScenario,
    act: Act,
) -> bool {
    &&& post.caller@ == pre.caller@
    &&& match r {
        Reply::Broken { message } => {
            &&& post.state is Finished
            &&& act matches Act::Done(Err(f)) && f.notes@ == seq![message]
        },
        _ => match (pre.state, r) {
            (TransferState::Begin, Reply::Begin) => {
                &&& post.state matches TransferState::SetupFirst { m } && m.caller@ == pre.caller@
                    && m.amount == SEED_AMOUNT && m.state is AwaitCallerBalance
                &&& act matches Act::Query(Request::Balance { account })
                    && account@ == pre.caller@
            },
            (TransferState::SetupFirst { m }, _) => exists|m2: SetupMachine, a2: SetupAct| {
                &&& #[trigger] setup_rel(m, r, m2, a2)
                &&& match a2 {
                    SetupAct::Query(q) => post.state == (TransferState::SetupFirst { m: m2 })
                        && act == Act::Query(q),
                    SetupAct::Failed(f) => post.state is Finished && act == Act::Done(Err(f)),
                    SetupAct::Ready(first) => {
                        &&& post.state matches TransferState::SetupSecond { first: f1, m: ms }
                            && f1 == first && ms.caller@ == pre.caller@
                            && ms.amount == SEED_AMOUNT && ms.state is AwaitCallerBalance
                        &&& act matches Act::Query(Request::Balance { account })
                            && account@ == pre.caller@
                    },
                }
            },
            (TransferState::SetupSecond { first, m }, _) => exists|
                m2: SetupMachine,
                a2: SetupAct,
            | {
                &&& #[trigger] setup_rel(m, r, m2, a2)
                &&& match a2 {
                    SetupAct::Query(q) => post.state == (TransferState::SetupSecond {
                        first,
                        m: m2,
                    }) && act == Act::Query(q),
                    SetupAct::Failed(f) => post.state is Finished && act == Act::Done(Err(f)),
                    SetupAct::Ready(second) => {
                        &&& post.state matches TransferState::AwaitFirstBalance {
                            first: f1,
                            second: s1,
                        } && f1 == first && s1 == second
                        &&& act matches Act::Query(Request::Balance { account })
                            && account@ == first@
                    },
                }
            },
            (
                TransferState::AwaitFirstBalance { first, second },
                Reply::Balance { amount: b1 },
            ) => {
                &&& post.state matches TransferState::AwaitSecondBalance {
                    first: f1,
                    second: s1,
                    first_balance,
                } && f1 == first && s1 == second && first_balance == b1
                &&& act matches Act::Query(Request::Balance { account }) && account@ == second@
            },
            (
                TransferState::AwaitSecondBalance { first, second, first_balance },
                Reply::Balance { amount: b2 },
            ) => {
                &&& post.state matches TransferState::AwaitTransfer {
                    first: f1,
                    second: s1,
                    first_balance: fb,
                    second_balance,
                } && f1 == first && s1 == second && fb == first_balance && second_balance == b2
                &&& act matches Act::Query(Request::Transfer { from, to, amount })
                    && from@ == first@ && to@ == second@ && amount == TRANSFER_AMOUNT
            },
            (
                TransferState::AwaitTransfer { first, second, first_balance, second_balance },
                Reply::Transferred { .. },
            ) => {
                // A protocol-level rejection is not reported here: the
                // balance checks that follow hold the ledger to account.
                &&& post.state matches TransferState::AwaitCredited {
                    first: f1,
                    second: s1,
                    first_balance: fb,
                    second_balance: sb,
                } && f1 == first && s1 == second && fb == first_balance && sb == second_balance
                &&& act matches Act::Query(Request::Balance { account }) && account@ == second@
            },
            (
                TransferState::AwaitCredited { first, second, first_balance, second_balance },
                Reply::Balance { amount: x },
            ) => {
                if second_balance + TRANSFER_AMOUNT > u128::MAX {
                    &&& post.state is Finished
                    &&& act matches Act::Done(Err(f)) && f.notes@.len() == 1
                        && f.notes@[0]@ == overflow_msg_view()
                } else if x == second_balance + TRANSFER_AMOUNT {
                    &&& post.state matches TransferState::AwaitCreditedZero {
                        first: f1,
                        second: s1,
                        first_balance: fb,
                        second_balance: sb,
                    } && f1 == first && s1 == second && fb == first_balance
                        && sb == second_balance
                    &&& act matches Act::Query(Request::Balance { account })
                        && account@ == zeroed(second@)
                } else {
                    &&& post.state is Finished
                    &&& act matches Act::Done(Err(f)) && f.notes@.len() == 1
                        && f.notes@[0]@ == balance_msg_view(
                        second@,
                        (second_balance + TRANSFER_AMOUNT) as nat,
                        x as nat,
                    )
                }
            },
            (
                TransferState::AwaitCreditedZero {
                    first,
                    second,
                    first_balance,
                    second_balance,
                },
                Reply::Balance { amount: x },
            ) => {
                if second_balance + TRANSFER_AMOUNT > u128::MAX {
                    &&& post.state is Finished
                    &&& act matches Act::Done(Err(f)) && f.notes@.len() == 1
                        && f.notes@[0]@ == overflow_msg_view()
                } else if x == second_balance + TRANSFER_AMOUNT {
                    &&& post.state matches TransferState::AwaitFeeQuote {
                        first: f1,
                        first_balance: fb,
                    } && f1 == first && fb == first_balance
                    &&& act matches Act::Query(Request::Fee)
                } else {
                    &&& post.state is Finished
                    &&& act matches Act::Done(Err(f)) && f.notes@.len() == 2
                        && f.notes@[0]@ == default_subaccount_ctx_view()
                        && f.notes@[1]@ == balance_msg_view(
                        zeroed(second@),
                        (second_balance + TRANSFER_AMOUNT) as nat,
                        x as nat,
                    )
                }
            },
            (
                TransferState::AwaitFeeQuote { first, first_balance },
                Reply::Fee { amount: f },
            ) => {
                if TRANSFER_AMOUNT + f <= u128::MAX && first_balance >= TRANSFER_AMOUNT + f {
                    &&& post.state matches TransferState::AwaitDebited {
                        first: f1,
                        first_balance: fb,
                        fee,
                    } && f1 == first && fb == first_balance && fee == f
                    &&& act matches Act::Query(Request::Balance { account })
                        && account@ == first@
                } else {
                    &&& post.state is Finished
                    &&& act matches Act::Done(Err(fl)) && fl.notes@.len() == 1
                        && fl.notes@[0]@ == underfunded_msg_view(
                        first_balance as nat,
                        TRANSFER_AMOUNT as nat,
                        f as nat,
                    )
                }
            },
            (
                TransferState::AwaitDebited { first, first_balance, fee },
                Reply::Balance { amount: y },
            ) => {
                if first_balance < TRANSFER_AMOUNT + fee {
                    &&& post.state is Finished
                    &&& act matches Act::Done(Err(fl)) && fl.notes@.len() == 1
                        && fl.notes@[0]@ == underfunded_msg_view(
                        first_balance as nat,
                        TRANSFER_AMOUNT as nat,
                        fee as nat,
                    )
                } else if y == first_balance - TRANSFER_AMOUNT - fee {
                    &&& post.state is Finished
                    &&& act == Act::Done(Ok(Outcome::Passed))
                } else {
                    &&& post.state is Finished
                    &&& act matches Act::Done(Err(fl)) && fl.notes@.len() == 1
                        && fl.notes@[0]@ == balance_msg_view(
                        first@,
                        (first_balance - TRANSFER_AMOUNT - fee) as nat,
                        y as nat,
                    )
                }
            },
            _ => {
                &&& post.state is Finished
                &&& act matches Act::Done(Err(fl)) && fl.notes@.len() == 1
                    && fl.notes@[0]@ == unexpected_msg_view()
            },
        },
    }
}

/// The transfer conformance scenario, bound to the caller's account,
/// ready to begin. Expects the caller to hold at least twice the seed
/// amount plus fees; a shortfall fails the scenario, not the run.
pub fn test_transfer(caller: Account) -> (t: TransferScenario)
    ensures
        t.caller == caller,
        t.state is Begin,
{
    TransferScenario { caller, state: TransferState::Begin }
}

/// Law: after the transfer, the receiver must hold exactly its old
/// balance plus the transferred amount — the scenario walks on from the
/// receiver's balance check exactly when it does, and fails it otherwise.
pub proof fn lemma_receiver_gains_exactly(
    first: Account,
    second: Account,
    fb: u128,
    sb: u128,
    x: u128,
    pre: TransferScenario,
    post: TransferScenario,
    act: Act,
)
    requires
        sb + TRANSFER_AMOUNT <= u128::MAX,
        pre.state == (TransferState::AwaitCredited {
            first,
            second,
            first_balance: fb,
            second_balance: sb,
        }),
        transfer_rel(pre, (Reply::Balance { amount: x }), post, act),
    ensures
        (act matches Act::Query(q)) <==> x == sb + TRANSFER_AMOUNT,
{
}

/// Law: the scenario passes only if the sender holds exactly its old
/// balance less the transferred amount and the fee, and it passes
/// whenever the sender does.
pub proof fn lemma_sender_pays_exactly(
    first: Account,
    fb: u128,
    fee: u128,
    y: u128,
    pre: TransferScenario,
    post: TransferScenario,
    act: Act,
)
    requires
        TRANSFER_AMOUNT + fee <= fb,
        pre.state == (TransferState::AwaitDebited { first, first_balance: fb, fee }),
        transfer_rel(pre, (Reply::Balance { amount: y }), post, act),
    ensures
        (act == Act::Done(Ok(Outcome::Passed))) <==> y + TRANSFER_AMOUNT + fee == fb,
{
}

impl TransferScenario {
    /// Takes the reply owed to the pending request and yields the next
    /// machine and action, as `transfer_rel` states.
    pub fn step(self, r: Reply) -> (res: (TransferScenario, Act))
        ensures
            transfer_rel(self, r, res.0, res.1),
    {
        let TransferScenario { caller, state } = self;
        match r {
            Reply::Broken { message } => (
                TransferScenario { caller, state: TransferState::Finished },
                Act::Done(Err(Failure::msg(message))),
            ),
            rr => match (state, rr) {
                (TransferState::Begin, Reply::Begin) => {
                    let m = SetupMachine::new(caller.clone(), SEED_AMOUNT);
                    let (m2, a2) = m.step(Reply::Begin);
                    match a2 {
                        SetupAct::Query(q) => (
                            TransferScenario {
                                caller,
                                state: TransferState::SetupFirst { m: m2 },
                            },
                            Act::Query(q),
                        ),
                        _ => (
                            TransferScenario { caller, state: TransferState::Finished },
                            Act::Done(Err(Failure::msg(unexpected_msg()))),
                        ),
                    }
                },
                (TransferState::SetupFirst { m }, rr2) => {
                    let ghost m0 = m;
                    let ghost rsame = rr2;
                    let (m2, a2) = m.step(rr2);
                    proof {
                        assert(setup_rel(m0, rsame, m2, a2));
                    }
                    match a2 {
                        SetupAct::Query(q) => (
                            TransferScenario {
                                caller,
                                state: TransferState::SetupFirst { m: m2 },
                            },
                            Act::Query(q),
                        ),
                        SetupAct::Failed(f) => (
                            TransferScenario { caller, state: TransferState::Finished },
                            Act::Done(Err(f)),
                        ),
                        SetupAct::Ready(first) => {
                            let ms = SetupMachine::new(caller.clone(), SEED_AMOUNT);
                            let (ms2, a3) = ms.step(Reply::Begin);
                            match a3 {
                                SetupAct::Query(q) => (
                                    TransferScenario {
                                        caller,
                                        state: TransferState::SetupSecond { first, m: ms2 },
                                    },
                                    Act::Query(q),
                                ),
                                _ => (
                                    TransferScenario { caller, state: TransferState::Finished },
                                    Act::Done(Err(Failure::msg(unexpected_msg()))),
                                ),
                            }
                        },
                    }
                },
                (TransferState::SetupSecond { first, m }, rr2) => {
                    let ghost m0 = m;
                    let ghost rsame = rr2;
                    let (m2, a2) = m.step(rr2);
                    proof {
                        assert(setup_rel(m0, rsame, m2, a2));
                    }
                    match a2 {
                        SetupAct::Query(q) => (
                            TransferScenario {
                                caller,
                                state: TransferState::SetupSecond { first, m: m2 },
                            },
                            Act::Query(q),
                        ),
                        SetupAct::Failed(f) => (
                            TransferScenario { caller, state: TransferState::Finished },
                            Act::Done(Err(f)),
                        ),
                        SetupAct::Ready(second) => {
                            let q = Request::Balance { account: first.clone() };
                            (
                                TransferScenario {
                                    caller,
                                    state: TransferState::AwaitFirstBalance { first, second },
                                },
                                Act::Query(q),
                            )
                        },
                    }
                },
                (
                    TransferState::AwaitFirstBalance { first, second },
                    Reply::Balance { amount: b1 },
                ) => {
                    let q = Request::Balance { account: second.clone() };
                    (
                        TransferScenario {
                            caller,
                            state: TransferState::AwaitSecondBalance {
                                first,
                                second,
                                first_balance: b1,
                            },
                        },
                        Act::Query(q),
                    )
                },
                (
                    TransferState::AwaitSecondBalance { first, second, first_balance },
                    Reply::Balance { amount: b2 },
                ) => {
                    let q = Request::Transfer {
                        from: first.clone(),
                        to: second.clone(),
                        amount: TRANSFER_AMOUNT,
                    };
                    (
                        TransferScenario {
                            caller,
                            state: TransferState::AwaitTransfer {
                                first,
                                second,
                                first_balance,
                                second_balance: b2,
                            },
                        },
                        Act::Query(q),
                    )
                },
                (
                    TransferState::AwaitTransfer { first, second, first_balance, second_balance },
                    Reply::Transferred { result: _ },
                ) => {
                    let q = Request::Balance { account: second.clone() };
                    (
                        TransferScenario {
                            caller,
                            state: TransferState::AwaitCredited {
                                first,
                                second,
                                first_balance,
                                second_balance,
                            },
                        },
                        Act::Query(q),
                    )
                },
                (
                    TransferState::AwaitCredited { first, second, first_balance, second_balance },
                    Reply::Balance { amount: x },
                ) => {
                    match add_checked(second_balance, TRANSFER_AMOUNT) {
                        None => (
                            TransferScenario { caller, state: TransferState::Finished },
                            Act::Done(Err(Failure::msg(overflow_msg()))),
                        ),
                        Some(expected) => {
                            if x == expected {
                                let q = Request::Balance {
                                    account: second.with_zero_subaccount(),
                                };
                                (
                                    TransferScenario {
                                        caller,
                                        state: TransferState::AwaitCreditedZero {
                                            first,
                                            second,
                                            first_balance,
                                            second_balance,
                                        },
                                    },
                                    Act::Query(q),
                                )
                            } else {
                                let fl = balance_failure(&second, expected, x);
                                (
                                    TransferScenario { caller, state: TransferState::Finished },
                                    Act::Done(Err(fl)),
                                )
                            }
                        },
                    }
                },
                (
                    TransferState::AwaitCreditedZero {
                        first,
                        second,
                        first_balance,
                        second_balance,
                    },
                    Reply::Balance { amount: x },
                ) => {
                    match add_checked(second_balance, TRANSFER_AMOUNT) {
                        None => (
                            TransferScenario { caller, state: TransferState::Finished },
                            Act::Done(Err(Failure::msg(overflow_msg()))),
                        ),
                        Some(expected) => {
                            if x == expected {
                                (
                                    TransferScenario {
                                        caller,
                                        state: TransferState::AwaitFeeQuote {
                                            first,
                                            first_balance,
                                        },
                                    },
                                    Act::Query(Request::Fee),
                                )
                            } else {
                                let zs = second.with_zero_subaccount();
                                let fl = balance_failure(&zs, expected, x).context(
                                    default_subaccount_ctx(),
                                );
                                (
                                    TransferScenario { caller, state: TransferState::Finished },
                                    Act::Done(Err(fl)),
                                )
                            }
                        },
                    }
                },
                (
                    TransferState::AwaitFeeQuote { first, first_balance },
                    Reply::Fee { amount: f },
                ) => {
                    let coverable = match add_checked(TRANSFER_AMOUNT, f) {
                        Some(need) => first_balance >= need,
                        None => false,
                    };
                    if coverable {
                        let q = Request::Balance { account: first.clone() };
                        (
                            TransferScenario {
                                caller,
                                state: TransferState::AwaitDebited {
                                    first,
                                    first_balance,
                                    fee: f,
                                },
                            },
                            Act::Query(q),
                        )
                    } else {
                        let fl = Failure::msg(
                            underfunded_msg(first_balance, TRANSFER_AMOUNT, f),
                        );
                        (
                            TransferScenario { caller, state: TransferState::Finished },
                            Act::Done(Err(fl)),
                        )
                    }
                },
                (
                    TransferState::AwaitDebited { first, first_balance, fee },
                    Reply::Balance { amount: y },
                ) => {
                    let covered = match add_checked(TRANSFER_AMOUNT, fee) {
                        Some(need) => first_balance >= need,
                        None => false,
                    };
                    if !covered {
                        let fl = Failure::msg(
                            underfunded_msg(first_balance, TRANSFER_AMOUNT, fee),
                        );
                        return (
                            TransferScenario { caller, state: TransferState::Finished },
                            Act::Done(Err(fl)),
                        );
                    }
                    let expected = first_balance - TRANSFER_AMOUNT - fee;
                    if y == expected {
                        (
                            TransferScenario { caller, state: TransferState::Finished },
                            Act::Done(Ok(Outcome::Passed)),
                        )
                    } else {
                        let fl = balance_failure(&first, expected, y);
                        (
                            TransferScenario { caller, state: TransferState::Finished },
                            Act::Done(Err(fl)),
                        )
                    }
                },
                _ => (
                    TransferScenario { caller, state: TransferState::Finished },
                    Act::Done(Err(Failure::msg(unexpected_msg()))),
                ),
            },
        }
    }
}

} // verus!
