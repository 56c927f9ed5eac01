use vstd::prelude::*;
use crate::account::Account;
use crate::failure::Failure;
use crate::value::Value;
use crate::Outcome;

verus! {

/// A standard advertised by the ledger; the engine only inspects the name.
pub struct StandardRecord {
    pub name: String,
    pub url: String,
}

/// One operation a scenario asks the ledger connection to perform.
/// `from` names the account on whose behalf a mutation is submitted.
pub enum Request {
    Balance { account: Account },
    Fee,
    Fork,
    Transfer { from: Account, to: Account, amount: u128 },
    Burn { from: Account, amount: u128 },
    Metadata,
    TokenName,
    TokenSymbol,
    TokenDecimals,
    Standards,
}

/// What came back for the pending request. `Begin` starts a scenario.
/// `Broken` reports a transport-level fault; a protocol-level rejection
/// travels as the `Err` inside `Transferred` or `Burned`, so callers can
/// tell the two apart.
pub enum Reply {
    Begin,
    Balance { amount: u128 },
    Fee { amount: u128 },
    Forked { account: Account },
    Transferred { result: Result<u128, String> },
    Burned { result: Result<u128, String> },
    Metadata { entries: Vec<(String, Value)> },
    TokenName { name: String },
    TokenSymbol { symbol: String },
    TokenDecimals { decimals: u8 },
    Standards { standards: Vec<StandardRecord> },
    Broken { message: String },
}

/// What a scenario does after taking a reply: ask for the next ledger
/// operation, or report its terminal result.
pub enum Act {
    Query(Request),
    Done(Result<Outcome, Failure>),
}

} // verus!
