use vstd::prelude::*;
use vstd::string::StringExecFns;
use crate::text::{hex_digits, hex_of};

verus! {

/// An addressable balance holder: an owner identity (its raw bytes) and an
/// optional 32-byte subaccount discriminator.
pub struct Account {
    pub owner: Vec<u8>,
    pub subaccount: Option<Vec<u8>>,
}

/// The mathematical shape of an account.
pub struct AccountView {
    pub owner: Seq<u8>,
    pub subaccount: Option<Seq<u8>>,
}

impl View for Account {
    type V = AccountView;

    open spec fn view(&self) -> AccountView {
        AccountView {
            owner: self.owner@,
            subaccount: match self.subaccount {
                Some(s) => Some(s@),
                None => None,
            },
        }
    }
}

/// The all-zero subaccount, which names the default subaccount explicitly.
pub open spec fn zero_subaccount() -> Seq<u8> {
    Seq::new(32, |i: int| 0u8)
}

/// The canonical form of an account: an absent subaccount reads as the
/// explicit all-zero one.
pub open spec fn canonical(a: AccountView) -> AccountView {
    AccountView {
        owner: a.owner,
        subaccount: Some(
            match a.subaccount {
                Some(s) => s,
                None => zero_subaccount(),
            },
        ),
    }
}

/// Law: an account with an absent subaccount and one with the explicit
/// all-zero subaccount denote the same logical account, for every owner.
pub proof fn lemma_default_subaccount_equivalence(owner: Seq<u8>)
    ensures
        canonical((AccountView { owner, subaccount: None })) == canonical(
            (AccountView { owner, subaccount: Some(zero_subaccount()) }),
        ),
{
}

/// Copies a byte string.
pub fn clone_bytes(v: &Vec<u8>) -> (r: Vec<u8>)
    ensures
        r@ == v@,
{
    let mut out: Vec<u8> = Vec::new();
    let mut i: usize = 0;
    while i < v.len()
        invariant
            i <= v@.len(),
            out@ == v@.take(i as int),
        decreases v@.len() - i,
    {
        out.push(v[i]);
        i = i + 1;
        proof {
            assert(out@ =~= v@.take(i as int));
        }
    }
    proof {
        assert(v@.take(v@.len() as int) =~= v@);
    }
    out
}

impl Clone for Account {
    /// A copy with the same owner bytes and the same subaccount.
    fn clone(&self) -> (r: Self)
        ensures
            r@ == self@,
    {
        Account {
            owner: clone_bytes(&self.owner),
            subaccount: match &self.subaccount {
                Some(s) => Some(clone_bytes(s)),
                None => None,
            },
        }
    }
}

impl Account {
    /// The same owner, addressed through the explicit all-zero subaccount.
    pub fn with_zero_subaccount(&self) -> (r: Account)
        ensures
            r@.owner == self@.owner,
            r@.subaccount == Some(zero_subaccount()),
    {
        let mut z: Vec<u8> = Vec::new();
        let mut i: usize = 0;
        while i < 32
            invariant
                i <= 32,
                z@ == zero_subaccount().take(i as int),
            decreases 32 - i,
    {
            z.push(0u8);
            i = i + 1;
            proof {
                assert(z@ =~= zero_subaccount().take(i as int));
            }
        }
        proof {
            assert(zero_subaccount().take(32) =~= zero_subaccount());
        }
        Account { owner: clone_bytes(&self.owner), subaccount: Some(z) }
    }
}

/// The rendering of an account in diagnostics: the owner bytes in
/// hexadecimal, then, if a subaccount is given, a dot and its bytes.
pub open spec fn account_text_view(a: AccountView) -> Seq<char> {
    match a.subaccount {
        None => hex_digits(a.owner),
        Some(s) => hex_digits(a.owner) + "."@ + hex_digits(s),
    }
}

/// Renders an account for a diagnostic line.
pub fn account_text(a: &Account) -> (r: String)
    ensures
        r@ == account_text_view(a@),
{
    let mut out = hex_of(&a.owner);
    match &a.subaccount {
        None => out,
        Some(s) => {
            out.append(".");
            let h = hex_of(s);
            out.append(h.as_str());
            out
        },
    }
}

} // verus!
