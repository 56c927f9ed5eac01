use vstd::prelude::*;
use vstd::string::StringExecFns;
use crate::diag::{unexpected_msg, unexpected_msg_view};
use crate::failure::Failure;
use crate::protocol::{Act, Reply, Request, StandardRecord};
use crate::Outcome;

verus! {

/// True when some advertised standard is named "ICRC-1".
pub open spec fn claims_icrc1(stds: Seq<StandardRecord>) -> bool {
    exists|i: int| 0 <= i < stds.len() && stds[i].name@ == "ICRC-1"@
}

/// The names of the advertised standards from `from` on, joined with a
/// comma and a space.
pub open spec fn names_text_view(stds: Seq<StandardRecord>, from: int) -> Seq<char>
    decreases stds.len() - from,
{
    if from < 0 || from >= stds.len() {
        Seq::empty()
    } else if from == stds.len() - 1 {
        stds[from].name@
    } else {
        stds[from].name@ + ", "@ + names_text_view(stds, from + 1)
    }
}

/// The diagnostic shown when the canonical standard is not advertised,
/// embedding the full list received.
pub open spec fn standards_msg_view(stds: Seq<StandardRecord>) -> Seq<char> {
    "The ledger does not claim support for ICRC-1: "@ + names_text_view(stds, 0)
}

fn names_text(stds: &Vec<StandardRecord>, from: usize) -> (r: String)
    ensures
        r@ == names_text_view(stds@, from as int),
    decreases stds@.len() - from,
{
    if from >= stds.len() {
        String::new()
    } else if from == stds.len() - 1 {
        stds[from].name.clone()
    } else {
        let mut s = stds[from].name.clone();
        s.append(", ");
        let rest = names_text(stds, from + 1);
        s.append(rest.as_str());
        s
    }
}

/// Where the standards advertisement scenario stands.
pub enum StandardsState {
    Begin,
    AwaitList,
    Finished,
}

/// Checks that the ledger advertises support for the canonical "ICRC-1"
/// standard; on failure the diagnostic embeds the list received.
pub struct StandardsScenario {
    pub state: StandardsState,
}

/// The transition relation of the standards advertisement scenario.
pub open spec fn standards_rel(
    pre: StandardsScenario,
    r: Reply,
    post: StandardsScenario,
    act: Act,
) -> bool {
    match r {
        Reply::Broken { message } => {
            &&& post.state is Finished
            &&& act matches Act::Done(Err(f)) && f.notes@ == seq![message]
        },
        _ => match (pre.state, r) {
            (StandardsState::Begin, Reply::Begin) => {
                &&& post.state is AwaitList
                &&& act matches Act::Query(Request::Standards)
            },
            (StandardsState::AwaitList, Reply::Standards { standards }) => {
                if claims_icrc1(standards@) {
                    &&& post.state is Finished
                    &&& act == Act::Done(Ok(Outcome::Passed))
                } else {
                    &&& post.state is Finished
                    &&& act matches Act::Done(Err(f)) && f.notes@.len() == 1
                        && f.notes@[0]@ == standards_msg_view(standards@)
                }
            },
            _ => {
                &&& post.state is Finished
                &&& act matches Act::Done(Err(f)) && f.notes@.len() == 1
                    && f.notes@[0]@ == unexpected_msg_view()
            },
        },
    }
}

/// The standards advertisement scenario, ready to begin.
pub fn test_supported_standards() -> (t: StandardsScenario)
    ensures
        t.state is Begin,
{
    StandardsScenario { state: StandardsState::Begin }
}

impl StandardsScenario {
    /// Takes the reply owed to the pending request and yields the next
    /// machine and action, as `standards_rel` states.
    pub fn step(self, r: Reply) -> (res: (StandardsScenario, Act))
        ensures
            standards_rel(self, r, res.0, res.1),
    {
        let StandardsScenario { state } = self;
        match r {
            Reply::Broken { message } => (
                StandardsScenario { state: StandardsState::Finished },
                Act::Done(Err(Failure::msg(message))),
            ),
            rr => match (state, rr) {
                (StandardsState::Begin, Reply::Begin) => (
                    StandardsScenario { state: StandardsState::AwaitList },
                    Act::Query(Request::Standards),
                ),
                (StandardsState::AwaitList, Reply::Standards { standards }) => {
                    let want = String::from_str("ICRC-1");
                    let mut i: usize = 0;
                    let mut found: bool = false;
                    while i < standards.len()
                        invariant
                            i <= standards@.len(),
                            want@ == "ICRC-1"@,
                            found == (exists|j: int|
                                0 <= j < i && standards@[j].name@ == "ICRC-1"@),
                        decreases standards@.len() - i,
                    {
                        if standards[i].name.eq(&want) {
                            found = true;
                        }
                        i = i + 1;
                    }
                    if found {
                        (
                            StandardsScenario { state: StandardsState::Finished },
                            Act::Done(Ok(Outcome::Passed)),
                        )
                    } else {
                        let mut s = String::from_str(
                            "The ledger does not claim support for ICRC-1: ",
                        );
                        let names = names_text(&standards, 0);
                        s.append(names.as_str());
                        (
                            StandardsScenario { state: StandardsState::Finished },
                            Act::Done(Err(Failure::msg(s))),
                        )
                    }
                },
                _ => (
                    StandardsScenario { state: StandardsState::Finished },
                    Act::Done(Err(Failure::msg(unexpected_msg()))),
                ),
            },
        }
    }
}

} // verus!
