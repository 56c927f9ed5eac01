use vstd::prelude::*;
use crate::account::Account;
use crate::assertions::{add_checked, balance_failure, balance_msg_view};
use crate::diag::{transfer_ctx, transfer_ctx_view, underfunded_msg, underfunded_msg_view,
    unexpected_msg, unexpected_msg_view};
use crate::failure::Failure;
use crate::protocol::{Reply, Request};

verus! {

/// Where the funding of one fresh scenario account stands: each waiting
/// state names the reply owed to the machine's pending request.
pub enum SetupState {
    Begin,
    AwaitCallerBalance,
    AwaitFee { caller_balance: u128 },
    AwaitFork,
    AwaitFreshBalance { child: Account },
    AwaitTransfer { child: Account },
    AwaitSeededBalance { child: Account },
    Finished,
}

/// Funds a fresh, isolated account with `amount` tokens drawn from
/// `caller`: it checks that the caller can cover the amount and the fee,
/// forks an unused account, checks that it starts empty, seeds it, and
/// checks that the seed arrived in full.
pub struct SetupMachine {
    pub caller: Account,
    pub amount: u128,
    pub state: SetupState,
}

/// What the funding machine does after taking a reply: ask for the next
/// ledger operation, hand over the freshly funded account, or give up.
pub enum SetupAct {
    Query(Request),
    Ready(Account),
    Failed(Failure),
}

/// The transition relation of the funding machine: how one reply moves it
/// from `pre` to `post` and what it asks for or reports while doing so.
pub open spec fn setup_rel(pre: SetupMachine, r: Reply, post: SetupMachine, act: SetupAct) -> bool {
    &&& post.caller@ == pre.caller@
    &&& post.amount == pre.amount
    &&& match r {
        Reply::Broken { message } => {
            &&& post.state is Finished
            &&& act matches SetupAct::Failed(f) && f.notes@ == seq![message]
        },
        _ => match (pre.state, r) {
            (SetupState::Begin, Reply::Begin) => {
                &&& post.state is AwaitCallerBalance
                &&& act matches SetupAct::Query(Request::Balance { account })
                    && account@ == pre.caller@
            },
            (SetupState::AwaitCallerBalance, Reply::Balance { amount }) => {
                &&& post.state matches SetupState::AwaitFee { caller_balance }
                    && caller_balance == amount
                &&& act matches SetupAct::Query(Request::Fee)
            },
            (SetupState::AwaitFee { caller_balance }, Reply::Fee { amount: f }) => {
                if pre.amount + f <= u128::MAX && caller_balance >= pre.amount + f {
                    &&& post.state is AwaitFork
                    &&& act matches SetupAct::Query(Request::Fork)
                } else {
                    &&& post.state is Finished
                    &&& act matches SetupAct::Failed(fl) && fl.notes@.len() == 1
                        && fl.notes@[0]@ == underfunded_msg_view(
                        caller_balance as nat,
                        pre.amount as nat,
                        f as nat,
                    )
                }
            },
            (SetupState::AwaitFork, Reply::Forked { account }) => {
                &&& post.state matches SetupState::AwaitFreshBalance { child }
                    && child@ == account@
                &&& act matches SetupAct::Query(Request::Balance { account: q })
                    && q@ == account@
            },
            (SetupState::AwaitFreshBalance { child }, Reply::Balance { amount: z }) => {
                if z == 0 {
                    &&& post.state matches SetupState::AwaitTransfer { child: c }
                        && c@ == child@
                    &&& act matches SetupAct::Query(Request::Transfer { from, to, amount })
                        && from@ == pre.caller@ && to@ == child@ && amount == pre.amount
                } else {
                    &&& post.state is Finished
                    &&& act matches SetupAct::Failed(fl) && fl.notes@.len() == 1
                        && fl.notes@[0]@ == balance_msg_view(child@, 0, z as nat)
                }
            },
            (SetupState::AwaitTransfer { child }, Reply::Transferred { result }) => {
                match result {
                    Ok(_) => {
                        &&& post.state matches SetupState::AwaitSeededBalance { child: c }
                            && c@ == child@
                        &&& act matches SetupAct::Query(Request::Balance { account: q })
                            && q@ == child@
                    },
                    Err(msg) => {
                        &&& post.state is Finished
                        &&& act matches SetupAct::Failed(fl) && fl.notes@.len() == 2
                            && fl.notes@[0]@ == transfer_ctx_view(pre.amount as nat, child@)
                            && fl.notes@[1] == msg
                    },
                }
            },
            (SetupState::AwaitSeededBalance { child }, Reply::Balance { amount: x }) => {
                if x == pre.amount {
                    &&& post.state is Finished
                    &&& act matches SetupAct::Ready(acc) && acc@ == child@
                } else {
                    &&& post.state is Finished
                    &&& act matches SetupAct::Failed(fl) && fl.notes@.len() == 1
                        && fl.notes@[0]@ == balance_msg_view(
                        child@,
                        pre.amount as nat,
                        x as nat,
                    )
                }
            },
            _ => {
                &&& post.state is Finished
                &&& act matches SetupAct::Failed(fl) && fl.notes@.len() == 1
                    && fl.notes@[0]@ == unexpected_msg_view()
            },
        },
    }
}

impl SetupMachine {
    /// The machine that will fund one fresh account with `amount` tokens
    /// drawn from `caller`.
    pub fn new(caller: Account, amount: u128) -> (m: SetupMachine)
        ensures
            m.caller == caller,
            m.amount == amount,
            m.state is Begin,
    {
        SetupMachine { caller, amount, state: SetupState::Begin }
    }

    /// Takes the reply owed to the pending request and yields the next
    /// machine and action, as `setup_rel` states.
    pub fn step(self, r: Reply) -> (res: (SetupMachine, SetupAct))
        ensures
            setup_rel(self, r, res.0, res.1),
    {
        let SetupMachine { caller, amount, state } = self;
        match r {
            Reply::Broken { message } => (
                SetupMachine { caller, amount, state: SetupState::Finished },
                SetupAct::Failed(Failure::msg(message)),
            ),
            rr => match (state, rr) {
                (SetupState::Begin, Reply::Begin) => {
                    let q = Request::Balance { account: caller.clone() };
                    (
                        SetupMachine { caller, amount, state: SetupState::AwaitCallerBalance },
                        SetupAct::Query(q),
                    )
                },
                (SetupState::AwaitCallerBalance, Reply::Balance { amount: b }) => (
                    SetupMachine {
                        caller,
                        amount,
                        state: SetupState::AwaitFee { caller_balance: b },
                    },
                    SetupAct::Query(Request::Fee),
                ),
                (SetupState::AwaitFee { caller_balance }, Reply::Fee { amount: f }) => {
                    let fundable = match add_checked(amount, f) {
                        Some(need) => caller_balance >= need,
                        None => false,
                    };
                    if fundable {
                        (
                            SetupMachine { caller, amount, state: SetupState::AwaitFork },
                            SetupAct::Query(Request::Fork),
                        )
                    } else {
                        let fl = Failure::msg(underfunded_msg(caller_balance, amount, f));
                        (
                            SetupMachine { caller, amount, state: SetupState::Finished },
                            SetupAct::Failed(fl),
                        )
                    }
                },
                (SetupState::AwaitFork, Reply::Forked { account }) => {
                    let q = Request::Balance { account: account.clone() };
                    (
                        SetupMachine {
                            caller,
                            amount,
                            state: SetupState::AwaitFreshBalance { child: account },
                        },
                        SetupAct::Query(q),
                    )
                },
                (SetupState::AwaitFreshBalance { child }, Reply::Balance { amount: z }) => {
                    if z == 0 {
                        let q = Request::Transfer {
                            from: caller.clone(),
                            to: child.clone(),
                            amount,
                        };
                        (
                            SetupMachine {
                                caller,
                                amount,
                                state: SetupState::AwaitTransfer { child },
                            },
                            SetupAct::Query(q),
                        )
                    } else {
                        let fl = balance_failure(&child, 0, z);
                        (
                            SetupMachine { caller, amount, state: SetupState::Finished },
                            SetupAct::Failed(fl),
                        )
                    }
                },
                (SetupState::AwaitTransfer { child }, Reply::Transferred { result }) => {
                    match result {
                        Ok(_) => {
                            let q = Request::Balance { account: child.clone() };
                            (
                                SetupMachine {
                                    caller,
                                    amount,
                                    state: SetupState::AwaitSeededBalance { child },
                                },
                                SetupAct::Query(q),
                            )
                        },
                        Err(msg) => {
                            let ctx = transfer_ctx(amount, &child);
                            let fl = Failure::msg(msg).context(ctx);
                            (
                                SetupMachine { caller, amount, state: SetupState::Finished },
                                SetupAct::Failed(fl),
                            )
                        },
                    }
                },
                (SetupState::AwaitSeededBalance { child }, Reply::Balance { amount: x }) => {
                    if x == amount {
                        (
                            SetupMachine { caller, amount, state: SetupState::Finished },
                            SetupAct::Ready(child),
                        )
                    } else {
                        let fl = balance_failure(&child, amount, x);
                        (
                            SetupMachine { caller, amount, state: SetupState::Finished },
                            SetupAct::Failed(fl),
                        )
                    }
                },
                _ => (
                    SetupMachine { caller, amount, state: SetupState::Finished },
                    SetupAct::Failed(Failure::msg(unexpected_msg())),
                ),
            },
        }
    }
}

} // verus!
