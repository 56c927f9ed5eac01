//! A conformance-test engine for ledgers that implement the ICRC-1
//! token-transfer standard. Each scenario — transfer, burn, metadata
//! consistency, standards advertisement — is a state machine that asks
//! for one ledger operation at a time and takes the reply, so every
//! decision it makes is verified; an unverified rim performs the
//! operations and drives the machines. The reporter buffers completions
//! by index and emits the line-oriented report strictly in submission
//! order, whatever order the units finish in.

use vstd::prelude::*;

pub mod account;
pub mod assertions;
pub mod burn;
pub mod diag;
pub mod failure;
pub mod meta;
pub mod metadata;
pub mod protocol;
pub mod registry;
pub mod reporter;
pub mod setup;
pub mod standards;
pub mod text;
pub mod transfer;
pub mod value;

pub use account::Account;
pub use burn::test_burn;
pub use failure::Failure;
pub use metadata::test_metadata;
pub use registry::{test_suite, Test, Work};
pub use reporter::Reporter;
pub use standards::test_supported_standards;
pub use transfer::test_transfer;
pub use value::Value;

verus! {

/// How one conformance scenario ended when it did not fail outright:
/// either every check passed, or the scenario declined to run and says why.
pub enum Outcome {
    Passed,
    Skipped { reason: String },
}

/// What a scenario reports: a non-failing outcome, or a failure carrying
/// its chain of diagnostic notes.
pub type TestResult = Result<Outcome, Failure>;

} // verus!
