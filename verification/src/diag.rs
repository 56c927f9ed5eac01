use vstd::prelude::*;
use vstd::string::StringExecFns;
use crate::account::{account_text, account_text_view, Account, AccountView};
use crate::text::{dec_digits, dec_of};

verus! {

/// Note emitted when a reply does not answer the pending request.
pub open spec fn unexpected_msg_view() -> Seq<char> {
    "unexpected reply from the ledger connection"@
}

pub fn unexpected_msg() -> (r: String)
    ensures
        r@ == unexpected_msg_view(),
{
    String::from_str("unexpected reply from the ledger connection")
}

/// Note emitted when an expected balance does not fit the amount range.
pub open spec fn overflow_msg_view() -> Seq<char> {
    "the expected balance does not fit the supported amount range"@
}

pub fn overflow_msg() -> (r: String)
    ensures
        r@ == overflow_msg_view(),
{
    String::from_str("the expected balance does not fit the supported amount range")
}

/// Note emitted when an account cannot cover an amount plus the fee.
pub open spec fn underfunded_msg_view(balance: nat, amount: nat, fee: nat) -> Seq<char> {
    "account balance "@ + dec_digits(balance) + " cannot cover the amount "@ + dec_digits(
        amount,
    ) + " and the transfer fee "@ + dec_digits(fee)
}

pub fn underfunded_msg(balance: u128, amount: u128, fee: u128) -> (r: String)
    ensures
        r@ == underfunded_msg_view(balance as nat, amount as nat, fee as nat),
{
    let mut s = String::from_str("account balance ");
    let b = dec_of(balance);
    s.append(b.as_str());
    s.append(" cannot cover the amount ");
    let a = dec_of(amount);
    s.append(a.as_str());
    s.append(" and the transfer fee ");
    let f = dec_of(fee);
    s.append(f.as_str());
    s
}

/// Context note for a transfer the ledger did not accept.
pub open spec fn transfer_ctx_view(amount: nat, to: AccountView) -> Seq<char> {
    "failed to transfer "@ + dec_digits(amount) + " tokens to "@ + account_text_view(to)
}

pub fn transfer_ctx(amount: u128, to: &Account) -> (r: String)
    ensures
        r@ == transfer_ctx_view(amount as nat, to@),
{
    let mut s = String::from_str("failed to transfer ");
    let a = dec_of(amount);
    s.append(a.as_str());
    s.append(" tokens to ");
    let t = account_text(to);
    s.append(t.as_str());
    s
}

/// Context note for a burn the ledger did not accept.
pub open spec fn burn_ctx_view() -> Seq<char> {
    "failed to burn amount"@
}

pub fn burn_ctx() -> (r: String)
    ensures
        r@ == burn_ctx_view(),
{
    String::from_str("failed to burn amount")
}

/// Context note for a ledger that distinguishes an absent subaccount from
/// the all-zero one.
pub open spec fn default_subaccount_ctx_view() -> Seq<char> {
    "the ledger does not treat accounts with an empty subaccount as accounts with the default subaccount"@
}

pub fn default_subaccount_ctx() -> (r: String)
    ensures
        r@ == default_subaccount_ctx_view(),
{
    String::from_str(
        "the ledger does not treat accounts with an empty subaccount as accounts with the default subaccount",
    )
}

/// Note emitted for a key bound twice in the metadata snapshot.
pub open spec fn dup_key_msg_view(key: Seq<char>) -> Seq<char> {
    "Key "@ + key + " is duplicated in the metadata"@
}

pub fn dup_key_msg(key: &String) -> (r: String)
    ensures
        r@ == dup_key_msg_view(key@),
{
    let mut s = String::from_str("Key ");
    s.append(key.as_str());
    s.append(" is duplicated in the metadata");
    s
}

} // verus!
