use vstd::prelude::*;
use crate::account::Account;
use crate::assertions::{balance_failure, balance_msg_view};
use crate::diag::{burn_ctx, burn_ctx_view, unexpected_msg, unexpected_msg_view};
use crate::failure::Failure;
use crate::protocol::{Act, Reply, Request};
use crate::setup::{setup_rel, SetupAct, SetupMachine, SetupState};
use crate::Outcome;

verus! {

/// The balance the scenario account is seeded with and then burns whole.
pub const BURN_AMOUNT: u128 = 10_000;

/// Where the burn conformance scenario stands.
pub enum BurnState {
    Begin,
    Setup { m: SetupMachine },
    AwaitBurn { child: Account },
    AwaitDrained { child: Account },
    Finished,
}

/// Checks that the ledger supports burns: a fresh account seeded with
/// `BURN_AMOUNT` burns its full balance and must end at exactly zero. A
/// burn the ledger rejects at the protocol level fails the scenario.
pub struct BurnScenario {
    pub caller: Account,
    pub state: BurnState,
}

/// The transition relation of the burn scenario.
pub open spec fn burn_rel(pre: BurnScenario, r: Reply, post: BurnScenario, act: Act) -> bool {
    &&& post.caller@ == pre.caller@
    &&& match r {
        Reply::Broken { message } => {
            &&& post.state is Finished
            &&& act matches Act::Done(Err(f)) && f.notes@ == seq![message]
        },
        _ => match (pre.state, r) {
            (BurnState::Begin, Reply::Begin) => {
                &&& post.state matches BurnState::Setup { m } && m.caller@ == pre.caller@
                    && m.amount == BURN_AMOUNT && m.state is AwaitCallerBalance
                &&& act matches Act::Query(Request::Balance { account })
                    && account@ == pre.caller@
            },
            (BurnState::Setup { m }, _) => exists|m2: SetupMachine, a2: SetupAct| {
                &&& #[trigger] setup_rel(m, r, m2, a2)
                &&& match a2 {
                    SetupAct::Query(q) => post.state == (BurnState::Setup { m: m2 }) && act
                        == Act::Query(q),
                    SetupAct::Failed(f) => post.state is Finished && act == Act::Done(Err(f)),
                    SetupAct::Ready(child) => {
                        &&& post.state matches BurnState::AwaitBurn { child: c } && c == child
                        &&& act matches Act::Query(Request::Burn { from, amount })
                            && from@ == child@ && amount == BURN_AMOUNT
                    },
                }
            },
            (BurnState::AwaitBurn { child }, Reply::Burned { result }) => {
                match result {
                    Ok(_) => {
                        &&& post.state matches BurnState::AwaitDrained { child: c }
                            && c@ == child@
                        &&& act matches Act::Query(Request::Balance { account })
                            && account@ == child@
                    },
                    Err(msg) => {
                        &&& post.state is Finished
                        &&& act matches Act::Done(Err(f)) && f.notes@.len() == 2
                            && f.notes@[0]@ == burn_ctx_view() && f.notes@[1] == msg
                    },
                }
            },
            (BurnState::AwaitDrained { child }, Reply::Balance { amount: z }) => {
                if z == 0 {
                    &&& post.state is Finished
                    &&& act == Act::Done(Ok(Outcome::Passed))
                } else {
                    &&& post.state is Finished
                    &&& act matches Act::Done(Err(f)) && f.notes@.len() == 1
                        && f.notes@[0]@ == balance_msg_view(child@, 0, z as nat)
                }
            },
            _ => {
                &&& post.state is Finished
                &&& act matches Act::Done(Err(f)) && f.notes@.len() == 1
                    && f.notes@[0]@ == unexpected_msg_view()
            },
        },
    }
}

/// The burn conformance scenario, bound to the caller's account, ready to
/// begin.
pub fn test_burn(caller: Account) -> (t: BurnScenario)
    ensures
        t.caller == caller,
        t.state is Begin,
{
    BurnScenario { caller, state: BurnState::Begin }
}

impl BurnScenario {
    /// Takes the reply owed to the pending request and yields the next
    /// machine and action, as `burn_rel` states.
    pub fn step(self, r: Reply) -> (res: (BurnScenario, Act))
        ensures
            burn_rel(self, r, res.0, res.1),
    {
        let BurnScenario { caller, state } = self;
        match r {
            Reply::Broken { message } => (
                BurnScenario { caller, state: BurnState::Finished },
                Act::Done(Err(Failure::msg(message))),
            ),
            rr => match (state, rr) {
                (BurnState::Begin, Reply::Begin) => {
                    let m = SetupMachine::new(caller.clone(), BURN_AMOUNT);
                    let (m2, a2) = m.step(Reply::Begin);
                    match a2 {
                        SetupAct::Query(q) => (
                            BurnScenario { caller, state: BurnState::Setup { m: m2 } },
                            Act::Query(q),
                        ),
                        _ => (
                            BurnScenario { caller, state: BurnState::Finished },
                            Act::Done(Err(Failure::msg(unexpected_msg()))),
                        ),
                    }
                },
                (BurnState::Setup { m }, rr2) => {
                    let (m2, a2) = m.step(rr2);
                    match a2 {
                        SetupAct::Query(q) => (
                            BurnScenario { caller, state: BurnState::Setup { m: m2 } },
                            Act::Query(q),
                        ),
                        SetupAct::Failed(f) => (
                            BurnScenario { caller, state: BurnState::Finished },
                            Act::Done(Err(f)),
                        ),
                        SetupAct::Ready(child) => {
                            let q = Request::Burn { from: child.clone(), amount: BURN_AMOUNT };
                            (
                                BurnScenario { caller, state: BurnState::AwaitBurn { child } },
                                Act::Query(q),
                            )
                        },
                    }
                },
                (BurnState::AwaitBurn { child }, Reply::Burned { result }) => {
                    match result {
                        Ok(_) => {
                            let q = Request::Balance { account: child.clone() };
                            (
                                BurnScenario {
                                    caller,
                                    state: BurnState::AwaitDrained { child },
                                },
                                Act::Query(q),
                            )
                        },
                        Err(msg) => {
                            let fl = Failure::msg(msg).context(burn_ctx());
                            (
                                BurnScenario { caller, state: BurnState::Finished },
                                Act::Done(Err(fl)),
                            )
                        },
                    }
                },
                (BurnState::AwaitDrained { child }, Reply::Balance { amount: z }) => {
                    if z == 0 {
                        (
                            BurnScenario { caller, state: BurnState::Finished },
                            Act::Done(Ok(Outcome::Passed)),
                        )
                    } else {
                        let fl = balance_failure(&child, 0, z);
                        (
                            BurnScenario { caller, state: BurnState::Finished },
                            Act::Done(Err(fl)),
                        )
                    }
                },
                _ => (
                    BurnScenario { caller, state: BurnState::Finished },
                    Act::Done(Err(Failure::msg(unexpected_msg()))),
                ),
            },
        }
    }
}

} // verus!
