use vstd::prelude::*;
use vstd::string::StringExecFns;
use crate::account::{account_text, account_text_view, Account, AccountView};
use crate::failure::Failure;
use crate::text::{dec_digits, dec_of};
use crate::value::{value_eq, value_text, value_text_view, veq, Value};

verus! {

/// Adds two amounts, or says that the sum leaves the amount range.
pub fn add_checked(a: u128, b: u128) -> (r: Option<u128>)
    ensures
        (match r {
            Some(s) => a + b <= u128::MAX && s == a + b,
            None => a + b > u128::MAX,
        }),
{
    if a <= u128::MAX - b {
        Some(a + b)
    } else {
        None
    }
}

/// The diagnostic note for two values that were expected to be equal.
pub open spec fn unequal_msg_view(lhs: Value, rhs: Value) -> Seq<char> {
    value_text_view(lhs) + " != "@ + value_text_view(rhs)
}

/// Checks two metadata values for equality by contents; on a mismatch the
/// failure shows both values.
pub fn assert_equal(lhs: &Value, rhs: &Value) -> (r: Result<(), Failure>)
    ensures
        (r is Ok) == veq(*lhs, *rhs),
        (r matches Err(f) ==> f.notes@.len() == 1 && f.notes@[0]@ == unequal_msg_view(
            *lhs,
            *rhs,
        )),
{
    if value_eq(lhs, rhs) {
        Ok(())
    } else {
        let mut s = value_text(lhs);
        s.append(" != ");
        let t = value_text(rhs);
        s.append(t.as_str());
        Err(Failure::msg(s))
    }
}

/// The diagnostic note for a balance that differs from the expected value.
pub open spec fn balance_msg_view(a: AccountView, expected: nat, actual: nat) -> Seq<char> {
    "Expected the balance of account "@ + account_text_view(a) + " to be "@ + dec_digits(
        expected,
    ) + ", got "@ + dec_digits(actual)
}

/// Builds the failure that names the account and both balance values.
pub fn balance_failure(account: &Account, expected: u128, actual: u128) -> (f: Failure)
    ensures
        f.notes@.len() == 1,
        f.notes@[0]@ == balance_msg_view(account@, expected as nat, actual as nat),
{
    let mut s = String::from_str("Expected the balance of account ");
    let t = account_text(account);
    s.append(t.as_str());
    s.append(" to be ");
    let e = dec_of(expected);
    s.append(e.as_str());
    s.append(", got ");
    let a = dec_of(actual);
    s.append(a.as_str());
    Failure::msg(s)
}

/// Checks a queried balance against the expected value; on a mismatch the
/// failure names the account and both values.
pub fn assert_balance(account: &Account, expected: u128, actual: u128) -> (r: Result<(), Failure>)
    ensures
        (r is Ok) == (expected == actual),
        (r matches Err(f) ==> f.notes@.len() == 1 && f.notes@[0]@ == balance_msg_view(
            account@,
            expected as nat,
            actual as nat,
        )),
{
    if expected == actual {
        Ok(())
    } else {
        Err(balance_failure(account, expected, actual))
    }
}

} // verus!
