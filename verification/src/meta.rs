use vstd::prelude::*;
use crate::value::{veq, Value};

verus! {

/// True when some key occurs twice in the metadata snapshot.
pub open spec fn has_duplicate_keys(meta: Seq<(String, Value)>) -> bool {
    exists|i: int, j: int| 0 <= i < j < meta.len() && meta[i].0@ == meta[j].0@
}

/// True when some entry bears this key.
pub open spec fn has_key(meta: Seq<(String, Value)>, key: Seq<char>) -> bool {
    exists|i: int| 0 <= i < meta.len() && meta[i].0@ == key
}

/// True when the first binding of `key` has contents equal to `expected`;
/// holds vacuously when the key is absent.
pub open spec fn first_binding_matches(
    meta: Seq<(String, Value)>,
    key: Seq<char>,
    expected: Value,
) -> bool {
    forall|i: int|
        #![trigger meta[i]]
        (0 <= i < meta.len() && meta[i].0@ == key && (forall|j: int|
            0 <= j < i ==> meta[j].0@ != key)) ==> veq(expected, meta[i].1)
}

/// Decides whether some entry bears this key.
pub fn contains_key(meta: &Vec<(String, Value)>, key: &String) -> (r: bool)
    ensures
        r == has_key(meta@, key@),
{
    let mut i: usize = 0;
    while i < meta.len()
        invariant
            i <= meta@.len(),
            forall|j: int| 0 <= j < i ==> meta@[j].0@ != key@,
        decreases meta@.len() - i,
    {
        if meta[i].0.eq(key) {
            return true;
        }
        i = i + 1;
    }
    false
}

/// Returns the first value bound to `key`; absence is not an error.
pub fn lookup<'a>(meta: &'a Vec<(String, Value)>, key: &String) -> (r: Option<&'a Value>)
    ensures
        (match r {
            Some(v) => exists|i: int|
                0 <= i < meta@.len() && meta@[i].0@ == key@ && *v == meta@[i].1 && (forall|j: int|
                    0 <= j < i ==> meta@[j].0@ != key@),
            None => forall|i: int| 0 <= i < meta@.len() ==> meta@[i].0@ != key@,
        }),
{
    let mut i: usize = 0;
    while i < meta.len()
        invariant
            i <= meta@.len(),
            forall|j: int| 0 <= j < i ==> meta@[j].0@ != key@,
        decreases meta@.len() - i,
    {
        let entry = &meta[i];
        if entry.0.eq(key) {
            proof {
                assert(0 <= i < meta@.len() && meta@[i as int].0@ == key@ && (forall|j: int|
                    0 <= j < i ==> meta@[j].0@ != key@));
            }
            return Some(&entry.1);
        }
        i = i + 1;
    }
    None
}

/// Looks for a key bound twice. Returns the position of a later binding
/// whose key already occurred, and finds one exactly when the snapshot
/// holds a duplicate key.
pub fn find_duplicate_key(meta: &Vec<(String, Value)>) -> (r: Option<usize>)
    ensures
        (r is Some) == has_duplicate_keys(meta@),
        (match r {
            Some(j) => j < meta@.len() && (exists|i: int|
                0 <= i < j && meta@[i].0@ == meta@[j as int].0@),
            None => true,
        }),
{
    let n = meta.len();
    if n < 2 {
        return None;
    }
    let mut j: usize = 1;
    while j < n
        invariant
            1 <= j <= n,
            n == meta@.len(),
            forall|p: int, q: int| 0 <= p < q < j ==> meta@[p].0@ != meta@[q].0@,
        decreases n - j,
    {
        let mut i: usize = 0;
        while i < j
            invariant
                i <= j,
                j < n,
                n == meta@.len(),
                forall|p: int| 0 <= p < i ==> meta@[p].0@ != meta@[j as int].0@,
            decreases j - i,
        {
            if meta[i].0.eq(&meta[j].0) {
                proof {
                    assert(0 <= i < j && meta@[i as int].0@ == meta@[j as int].0@);
                }
                return Some(j);
            }
            i = i + 1;
        }
        j = j + 1;
    }
    None
}

} // verus!
