use vstd::prelude::*;
use vstd::string::StringExecFns;
use crate::assertions::{assert_equal, unequal_msg_view};
use crate::diag::{dup_key_msg, dup_key_msg_view, unexpected_msg, unexpected_msg_view};
use crate::failure::Failure;
use crate::meta::{find_duplicate_key, first_binding_matches, has_duplicate_keys, has_key, lookup,
    contains_key};
use crate::protocol::{Act, Reply, Request};
use crate::value::{veq, Value};
use crate::Outcome;

verus! {

/// The well-known metadata keys that are cross-checked against their
/// dedicated query endpoints, in the order they are checked.
pub open spec fn stage_key(k: int) -> Seq<char> {
    if k == 0 {
        "icrc1:name"@
    } else if k == 1 {
        "icrc1:symbol"@
    } else if k == 2 {
        "icrc1:decimals"@
    } else {
        "icrc1:fee"@
    }
}

fn stage_key_text(stage: u8) -> (r: String)
    requires
        stage < 4,
    ensures
        r@ == stage_key(stage as int),
{
    if stage == 0 {
        String::from_str("icrc1:name")
    } else if stage == 1 {
        String::from_str("icrc1:symbol")
    } else if stage == 2 {
        String::from_str("icrc1:decimals")
    } else {
        String::from_str("icrc1:fee")
    }
}

/// The context note for a metadata entry that disagrees with its
/// dedicated query endpoint.
pub open spec fn stage_ctx_view(k: int) -> Seq<char> {
    if k == 0 {
        "icrc1:name metadata entry does not match the icrc1_name endpoint"@
    } else if k == 1 {
        "icrc1:symbol metadata entry does not match the icrc1_symbol endpoint"@
    } else if k == 2 {
        "icrc1:decimals metadata entry does not match the icrc1_decimals endpoint"@
    } else {
        "icrc1:fee metadata entry does not match the icrc1_fee endpoint"@
    }
}

fn stage_ctx(stage: u8) -> (r: String)
    requires
        stage < 4,
    ensures
        r@ == stage_ctx_view(stage as int),
{
    if stage == 0 {
        String::from_str("icrc1:name metadata entry does not match the icrc1_name endpoint")
    } else if stage == 1 {
        String::from_str("icrc1:symbol metadata entry does not match the icrc1_symbol endpoint")
    } else if stage == 2 {
        String::from_str(
            "icrc1:decimals metadata entry does not match the icrc1_decimals endpoint",
        )
    } else {
        String::from_str("icrc1:fee metadata entry does not match the icrc1_fee endpoint")
    }
}

/// Checks the first binding of a well-known key against the value the
/// dedicated endpoint reported; an absent key only skips the cross-check.
fn check_entry(
    entries: &Vec<(String, Value)>,
    key: &String,
    expected: &Value,
    stage: u8,
) -> (r: Result<(), Failure>)
    requires
        stage < 4,
        key@ == stage_key(stage as int),
    ensures
        (r is Ok) == first_binding_matches(entries@, key@, *expected),
        (r matches Err(f) ==> f.notes@.len() == 2 && f.notes@[0]@ == stage_ctx_view(
            stage as int,
        ) && (exists|i: int|
            0 <= i < entries@.len() && entries@[i].0@ == key@ && (forall|j: int|
                0 <= j < i ==> entries@[j].0@ != key@) && f.notes@[1]@ == unequal_msg_view(
                *expected,
                entries@[i].1,
            ))),
{
    match lookup(entries, key) {
        None => {
            proof {
                assert(first_binding_matches(entries@, key@, *expected));
            }
            Ok(())
        },
        Some(v) => {
            match assert_equal(expected, v) {
                Ok(_) => {
                    proof {
                        let i0 = choose|i: int|
                            0 <= i < entries@.len() && entries@[i].0@ == key@ && *v
                                == entries@[i].1 && (forall|j: int|
                                0 <= j < i ==> entries@[j].0@ != key@);
                        assert forall|i: int|
                            (0 <= i < entries@.len() && #[trigger] entries@[i].0@ == key@ && (
                            forall|j: int| 0 <= j < i ==> entries@[j].0@ != key@)) implies veq(
                            *expected,
                            entries@[i].1,
                        ) by {
                            if i < i0 {
                                assert(entries@[i].0@ != key@);
                            } else if i0 < i {
                                assert(entries@[i0].0@ != key@);
                            }
                        };
                    }
                    Ok(())
                },
                Err(f0) => {
                    proof {
                        let i0 = choose|i: int|
                            0 <= i < entries@.len() && entries@[i].0@ == key@ && *v
                                == entries@[i].1 && (forall|j: int|
                                0 <= j < i ==> entries@[j].0@ != key@);
                        assert(!veq(*expected, entries@[i0].1));
                        assert(!first_binding_matches(entries@, key@, *expected));
                    }
                    Err(f0.context(stage_ctx(stage)))
                },
            }
        },
    }
}

/// Where the metadata consistency scenario stands: the snapshot, then one
/// waiting state per well-known key being cross-checked.
pub enum MetaState {
    Begin,
    AwaitSnapshot,
    AwaitName { entries: Vec<(String, Value)> },
    AwaitSymbol { entries: Vec<(String, Value)> },
    AwaitDecimals { entries: Vec<(String, Value)> },
    AwaitFee { entries: Vec<(String, Value)> },
    Finished,
}

/// Checks that the metadata snapshot holds no duplicate key and that each
/// well-known entry that is present agrees with its dedicated endpoint.
pub struct MetadataScenario {
    pub state: MetaState,
}

/// The first stage at or after `from` whose well-known key is present in
/// the snapshot; four when none is.
pub open spec fn next_present(meta: Seq<(String, Value)>, from: int) -> int
    decreases 4 - from,
{
    if from < 0 || from >= 4 {
        4
    } else if has_key(meta, stage_key(from)) {
        from
    } else {
        next_present(meta, from + 1)
    }
}

/// How the scenario advances once every stage before `from` is settled:
/// it queries the endpoint for the next present well-known key, or passes
/// when none is left.
pub open spec fn advance_rel(
    entries: Vec<(String, Value)>,
    from: int,
    post: MetadataScenario,
    act: Act,
) -> bool {
    let k = next_present(entries@, from);
    if k == 0 {
        &&& post.state matches MetaState::AwaitName { entries: e } && e == entries
        &&& act matches Act::Query(Request::TokenName)
    } else if k == 1 {
        &&& post.state matches MetaState::AwaitSymbol { entries: e } && e == entries
        &&& act matches Act::Query(Request::TokenSymbol)
    } else if k == 2 {
        &&& post.state matches MetaState::AwaitDecimals { entries: e } && e == entries
        &&& act matches Act::Query(Request::TokenDecimals)
    } else if k == 3 {
        &&& post.state matches MetaState::AwaitFee { entries: e } && e == entries
        &&& act matches Act::Query(Request::Fee)
    } else {
        &&& post.state is Finished
        &&& act == Act::Done(Ok(Outcome::Passed))
    }
}

fn advance(entries: Vec<(String, Value)>, from: u8) -> (res: (MetadataScenario, Act))
    requires
        from <= 4,
    ensures
        advance_rel(entries, from as int, res.0, res.1),
{
    proof {
        reveal_with_fuel(next_present, 6);
    }
    if from <= 0 && contains_key(&entries, &stage_key_text(0)) {
        (MetadataScenario { state: MetaState::AwaitName { entries } }, Act::Query(
            Request::TokenName,
        ))
    } else if from <= 1 && contains_key(&entries, &stage_key_text(1)) {
        (MetadataScenario { state: MetaState::AwaitSymbol { entries } }, Act::Query(
            Request::TokenSymbol,
        ))
    } else if from <= 2 && contains_key(&entries, &stage_key_text(2)) {
        (MetadataScenario { state: MetaState::AwaitDecimals { entries } }, Act::Query(
            Request::TokenDecimals,
        ))
    } else if from <= 3 && contains_key(&entries, &stage_key_text(3)) {
        (MetadataScenario { state: MetaState::AwaitFee { entries } }, Act::Query(Request::Fee))
    } else {
        (MetadataScenario { state: MetaState::Finished }, Act::Done(Ok(Outcome::Passed)))
    }
}

/// The transition relation of the metadata consistency scenario: the
/// snapshot must be free of duplicate keys, and each well-known entry
/// that is present must agree with its endpoint for the scenario to walk
/// on; an absent key only skips its cross-check.
pub open spec fn metadata_rel(
    pre: MetadataScenario,
    r: Reply,
    post: MetadataScenario,
    act: Act,
) -> bool {
    match r {
        Reply::Broken { message } => {
            &&& post.state is Finished
            &&& act matches Act::Done(Err(f)) && f.notes@ == seq![message]
        },
        _ => match (pre.state, r) {
            (MetaState::Begin, Reply::Begin) => {
                &&& post.state is AwaitSnapshot
                &&& act matches Act::Query(Request::Metadata)
            },
            (MetaState::AwaitSnapshot, Reply::Metadata { entries }) => {
                if has_duplicate_keys(entries@) {
                    &&& post.state is Finished
                    &&& act matches Act::Done(Err(f)) && f.notes@.len() == 1 && (exists|j: int|
                        0 <= j < entries@.len() && (exists|i: int|
                            0 <= i < j && entries@[i].0@ == entries@[j].0@)
                            && f.notes@[0]@ == dup_key_msg_view(entries@[j].0@))
                } else {
                    advance_rel(entries, 0, post, act)
                }
            },
            (MetaState::AwaitName { entries }, Reply::TokenName { name }) => {
                if first_binding_matches(entries@, stage_key(0), Value::Text(name)) {
                    advance_rel(entries, 1, post, act)
                } else {
                    mismatch_rel(entries, 0, Value::Text(name), post, act)
                }
            },
            (MetaState::AwaitSymbol { entries }, Reply::TokenSymbol { symbol }) => {
                if first_binding_matches(entries@, stage_key(1), Value::Text(symbol)) {
                    advance_rel(entries, 2, post, act)
                } else {
                    mismatch_rel(entries, 1, Value::Text(symbol), post, act)
                }
            },
            (MetaState::AwaitDecimals { entries }, Reply::TokenDecimals { decimals }) => {
                if first_binding_matches(entries@, stage_key(2), Value::Nat(decimals as u128)) {
                    advance_rel(entries, 3, post, act)
                } else {
                    mismatch_rel(entries, 2, Value::Nat(decimals as u128), post, act)
                }
            },
            (MetaState::AwaitFee { entries }, Reply::Fee { amount }) => {
                if first_binding_matches(entries@, stage_key(3), Value::Nat(amount)) {
                    advance_rel(entries, 4, post, act)
                } else {
                    mismatch_rel(entries, 3, Value::Nat(amount), post, act)
                }
            },
            _ => {
                &&& post.state is Finished
                &&& act matches Act::Done(Err(f)) && f.notes@.len() == 1
                    && f.notes@[0]@ == unexpected_msg_view()
            },
        },
    }
}

/// The scenario fails naming the metadata key whose entry disagrees with
/// its endpoint, showing both values.
pub open spec fn mismatch_rel(
    entries: Vec<(String, Value)>,
    stage: int,
    expected: Value,
    post: MetadataScenario,
    act: Act,
) -> bool {
    &&& post.state is Finished
    &&& act matches Act::Done(Err(f)) && f.notes@.len() == 2 && f.notes@[0]@ == stage_ctx_view(
        stage,
    ) && (exists|i: int|
        0 <= i < entries@.len() && entries@[i].0@ == stage_key(stage) && (forall|j: int|
            0 <= j < i ==> entries@[j].0@ != stage_key(stage)) && f.notes@[1]@
            == unequal_msg_view(expected, entries@[i].1))
}

/// Law: when the snapshot binds `icrc1:fee`, the scenario passes only if
/// that binding equals the fee the live endpoint reported at this point,
/// and an absent key only skips the cross-check.
pub proof fn lemma_fee_entry_must_match(
    entries: Vec<(String, Value)>,
    amount: u128,
    pre: MetadataScenario,
    post: MetadataScenario,
    act: Act,
)
    requires
        pre.state == (MetaState::AwaitFee { entries }),
        metadata_rel(pre, (Reply::Fee { amount }), post, act),
    ensures
        (act == Act::Done(Ok(Outcome::Passed))) <==> first_binding_matches(
            entries@,
            "icrc1:fee"@,
            Value::Nat(amount),
        ),
{
    reveal_with_fuel(next_present, 6);
}

/// The metadata consistency scenario, ready to begin.
pub fn test_metadata() -> (t: MetadataScenario)
    ensures
        t.state is Begin,
{
    MetadataScenario { state: MetaState::Begin }
}

impl MetadataScenario {
    /// Takes the reply owed to the pending request and yields the next
    /// machine and action, as `metadata_rel` states.
    pub fn step(self, r: Reply) -> (res: (MetadataScenario, Act))
        ensures
            metadata_rel(self, r, res.0, res.1),
    {
        let MetadataScenario { state } = self;
        match r {
            Reply::Broken { message } => (
                MetadataScenario { state: MetaState::Finished },
                Act::Done(Err(Failure::msg(message))),
            ),
            rr => match (state, rr) {
                (MetaState::Begin, Reply::Begin) => (
                    MetadataScenario { state: MetaState::AwaitSnapshot },
                    Act::Query(Request::Metadata),
                ),
                (MetaState::AwaitSnapshot, Reply::Metadata { entries }) => {
                    match find_duplicate_key(&entries) {
                        Some(j) => {
                            let fl = Failure::msg(dup_key_msg(&entries[j].0));
                            (
                                MetadataScenario { state: MetaState::Finished },
                                Act::Done(Err(fl)),
                            )
                        },
                        None => advance(entries, 0),
                    }
                },
                (MetaState::AwaitName { entries }, Reply::TokenName { name }) => {
                    let key = stage_key_text(0);
                    let expected = Value::Text(name);
                    match check_entry(&entries, &key, &expected, 0) {
                        Ok(_) => advance(entries, 1),
                        Err(f) => (
                            MetadataScenario { state: MetaState::Finished },
                            Act::Done(Err(f)),
                        ),
                    }
                },
                (MetaState::AwaitSymbol { entries }, Reply::TokenSymbol { symbol }) => {
                    let key = stage_key_text(1);
                    let expected = Value::Text(symbol);
                    match check_entry(&entries, &key, &expected, 1) {
                        Ok(_) => advance(entries, 2),
                        Err(f) => (
                            MetadataScenario { state: MetaState::Finished },
                            Act::Done(Err(f)),
                        ),
                    }
                },
                (MetaState::AwaitDecimals { entries }, Reply::TokenDecimals { decimals }) => {
                    let key = stage_key_text(2);
                    let expected = Value::Nat(decimals as u128);
                    match check_entry(&entries, &key, &expected, 2) {
                        Ok(_) => advance(entries, 3),
                        Err(f) => (
                            MetadataScenario { state: MetaState::Finished },
                            Act::Done(Err(f)),
                        ),
                    }
                },
                (MetaState::AwaitFee { entries }, Reply::Fee { amount }) => {
                    let key = stage_key_text(3);
                    let expected = Value::Nat(amount);
                    match check_entry(&entries, &key, &expected, 3) {
                        Ok(_) => advance(entries, 4),
                        Err(f) => (
                            MetadataScenario { state: MetaState::Finished },
                            Act::Done(Err(f)),
                        ),
                    }
                },
                _ => (
                    MetadataScenario { state: MetaState::Finished },
                    Act::Done(Err(Failure::msg(unexpected_msg()))),
                ),
            },
        }
    }
}

} // verus!
