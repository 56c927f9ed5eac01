use vstd::prelude::*;
use vstd::string::StringExecFns;
use crate::text::{dec_digits, dec_of, hex_digits, hex_of};

verus! {

/// A metadata value: text, a natural number, a blob, or a nested sequence
/// of further values.
pub enum Value {
    Text(String),
    Nat(u128),
    Blob(Vec<u8>),
    Array(Vec<Value>),
}

/// Equality of metadata values by contents: text by its characters, blobs
/// by their bytes, nested sequences element by element.
pub open spec fn veq(a: Value, b: Value) -> bool
    decreases a,
{
    match (a, b) {
        (Value::Text(x), Value::Text(y)) => x@ == y@,
        (Value::Nat(x), Value::Nat(y)) => x == y,
        (Value::Blob(x), Value::Blob(y)) => x@ == y@,
        (Value::Array(x), Value::Array(y)) => x.len() == y.len() && (forall|i: int|
            0 <= i < x.len() ==> veq(x[i as int], y[i as int])),
        _ => false,
    }
}

fn bytes_eq(x: &Vec<u8>, y: &Vec<u8>) -> (r: bool)
    ensures
        r == (x@ == y@),
{
    if x.len() != y.len() {
        return false;
    }
    let mut i: usize = 0;
    while i < x.len()
        invariant
            i <= x.len(),
            x@.len() == y@.len(),
            forall|j: int| 0 <= j < i ==> x@[j] == y@[j],
        decreases x@.len() - i,
    {
        if x[i] != y[i] {
            return false;
        }
        i = i + 1;
    }
    proof {
        assert(x@ =~= y@);
    }
    true
}

/// Decides equality of two metadata values by contents.
pub fn value_eq(a: &Value, b: &Value) -> (r: bool)
    ensures
        r == veq(*a, *b),
    decreases *a,
{
    match (a, b) {
        (Value::Text(x), Value::Text(y)) => x.eq(y),
        (Value::Nat(x), Value::Nat(y)) => x == y,
        (Value::Blob(x), Value::Blob(y)) => bytes_eq(x, y),
        (Value::Array(x), Value::Array(y)) => {
            if x.len() != y.len() {
                return false;
            }
            let mut i: usize = 0;
            while i < x.len()
                invariant
                    i <= x.len(),
                    x@.len() == y@.len(),
                    *a == Value::Array(*x),
                    *b == Value::Array(*y),
                    forall|j: int| 0 <= j < i ==> veq(x@[j], y@[j]),
                decreases x@.len() - i,
            {
                proof {
                    assert(*a == Value::Array(*x));
                    assert(decreases_to!(*a => (*a)->Array_0));
                    assert((*a)->Array_0 == *x);
                    assert(decreases_to!(*x => x@));
                    assert(decreases_to!(x@ => x@[i as int]));
                }
                if !value_eq(&x[i], &y[i]) {
                    proof {
                        assert(!veq(x@[i as int], y@[i as int]));
                        assert(!veq(*a, *b));
                    }
                    return false;
                }
                i = i + 1;
            }
            proof {
                assert(veq(*a, *b));
            }
            true
        },
        _ => false,
    }
}

/// The short rendering of a metadata value used in diagnostics: its kind
/// followed by its contents, nested sequences by their length alone.
pub open spec fn value_text_view(v: Value) -> Seq<char> {
    match v {
        Value::Text(s) => "text:"@ + s@,
        Value::Nat(n) => "nat:"@ + dec_digits(n as nat),
        Value::Blob(b) => "blob:"@ + hex_digits(b@),
        Value::Array(items) => "array:"@ + dec_digits(items.len() as nat) + " values"@,
    }
}

/// Renders a metadata value for a diagnostic line.
pub fn value_text(v: &Value) -> (r: String)
    ensures
        r@ == value_text_view(*v),
{
    match v {
        Value::Text(s) => {
            let mut out = String::from_str("text:");
            out.append(s.as_str());
            out
        },
        Value::Nat(n) => {
            let mut out = String::from_str("nat:");
            let d = dec_of(*n);
            out.append(d.as_str());
            out
        },
        Value::Blob(b) => {
            let mut out = String::from_str("blob:");
            let h = hex_of(b);
            out.append(h.as_str());
            out
        },
        Value::Array(items) => {
            let mut out = String::from_str("array:");
            let d = dec_of(items.len() as u128);
            out.append(d.as_str());
            out.append(" values");
            out
        },
    }
}

} // verus!
