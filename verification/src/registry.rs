use vstd::prelude::*;
use vstd::string::StringExecFns;
use crate::account::Account;
use crate::burn::{burn_rel, test_burn, BurnScenario};
use crate::metadata::{metadata_rel, test_metadata, MetadataScenario};
use crate::protocol::{Act, Reply};
use crate::standards::{standards_rel, test_supported_standards, StandardsScenario};
use crate::transfer::{test_transfer, transfer_rel, TransferScenario};

verus! {

/// One scenario's deferred, single-shot unit of work: whichever machine
/// it is, it is consumed step by step until it reports.
pub enum Work {
    Transfer(TransferScenario),
    Burn(BurnScenario),
    Metadata(MetadataScenario),
    Standards(StandardsScenario),
}

/// A named unit of work; the name is its sole identity in the report.
pub struct Test {
    pub name: String,
    pub work: Work,
}

/// Pairs a scenario's deferred work with its reporting name.
pub fn test(name: String, work: Work) -> (t: Test)
    ensures
        t.name == name,
        t.work == work,
{
    Test { name, work }
}

impl Work {
    /// Takes the reply owed to the pending request of whichever scenario
    /// this is, as that scenario's transition relation states.
    pub fn step(self, r: Reply) -> (res: (Work, Act))
        ensures
            (match self {
                Work::Transfer(m) => res.0 matches Work::Transfer(m2) && transfer_rel(
                    m,
                    r,
                    m2,
                    res.1,
                ),
                Work::Burn(m) => res.0 matches Work::Burn(m2) && burn_rel(m, r, m2, res.1),
                Work::Metadata(m) => res.0 matches Work::Metadata(m2) && metadata_rel(
                    m,
                    r,
                    m2,
                    res.1,
                ),
                Work::Standards(m) => res.0 matches Work::Standards(m2) && standards_rel(
                    m,
                    r,
                    m2,
                    res.1,
                ),
            }),
    {
        match self {
            Work::Transfer(m) => {
                let (m2, a) = m.step(r);
                (Work::Transfer(m2), a)
            },
            Work::Burn(m) => {
                let (m2, a) = m.step(r);
                (Work::Burn(m2), a)
            },
            Work::Metadata(m) => {
                let (m2, a) = m.step(r);
                (Work::Metadata(m2), a)
            },
            Work::Standards(m) => {
                let (m2, a) = m.step(r);
                (Work::Standards(m2), a)
            },
        }
    }
}

/// The entire conformance suite bound to the caller's account, in
/// submission order: transfer, burn, metadata, standards advertisement.
pub fn test_suite(caller: Account) -> (ts: Vec<Test>)
    ensures
        ts@.len() == 4,
        ts@[0].name@ == "basic:transfer"@,
        (ts@[0].work matches Work::Transfer(m) && m.caller@ == caller@ && m.state is Begin),
        ts@[1].name@ == "basic:burn"@,
        (ts@[1].work matches Work::Burn(m) && m.caller@ == caller@ && m.state is Begin),
        ts@[2].name@ == "basic:metadata"@,
        (ts@[2].work matches Work::Metadata(m) && m.state is Begin),
        ts@[3].name@ == "basic:supported_standards"@,
        (ts@[3].work matches Work::Standards(m) && m.state is Begin),
{
    let t1 = test(
        String::from_str("basic:transfer"),
        Work::Transfer(test_transfer(caller.clone())),
    );
    let t2 = test(String::from_str("basic:burn"), Work::Burn(test_burn(caller.clone())));
    let t3 = test(String::from_str("basic:metadata"), Work::Metadata(test_metadata()));
    let t4 = test(
        String::from_str("basic:supported_standards"),
        Work::Standards(test_supported_standards()),
    );
    let mut ts: Vec<Test> = Vec::new();
    ts.push(t1);
    ts.push(t2);
    ts.push(t3);
    ts.push(t4);
    ts
}

} // verus!
