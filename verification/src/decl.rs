//! The shape of one dependency declaration as it stands in the manifest:
//! a plain string, a table of keyed values, or some other shape that the
//! parser rejects.

use vstd::prelude::*;
use crate::strutil::str_eq;

verus! {

/// One value inside a declaration table: a string, or any other shape.
#[derive(Debug, Clone)]
pub enum DeclEntry {
    Str(String),
    Other,
}

/// A raw dependency declaration: a plain string, a keyed table, or any
/// other shape.
#[derive(Debug, Clone)]
pub enum DeclValue {
    Str(String),
    Table(Vec<(String, DeclEntry)>),
    Other,
}

/// Index of the first entry at or after `i` whose key is `k`, or
/// `entries.len()` when there is none.
pub open spec fn key_idx(entries: Seq<(String, DeclEntry)>, k: Seq<char>, i: int) -> int
    decreases entries.len() - i,
{
    if i < 0 || i >= entries.len() {
        entries.len() as int
    } else if entries[i].0@ == k {
        i
    } else {
        key_idx(entries, k, i + 1)
    }
}

/// Whether some entry has key `k`.
pub open spec fn has_key(entries: Seq<(String, DeclEntry)>, k: Seq<char>) -> bool {
    key_idx(entries, k, 0) < entries.len()
}

/// The string value of the first entry keyed `k`; `None` when the key is
/// absent or its value is not a string.
pub open spec fn lookup_str(entries: Seq<(String, DeclEntry)>, k: Seq<char>) -> Option<Seq<char>> {
    let i = key_idx(entries, k, 0);
    if i < entries.len() {
        match entries[i].1 {
            DeclEntry::Str(s) => Some(s@),
            DeclEntry::Other => None,
        }
    } else {
        None
    }
}

/// Index of the first entry keyed `k`, or `entries.len()` when absent.
pub fn find_key(entries: &Vec<(String, DeclEntry)>, k: &str) -> (r: usize)
    ensures
        r as int == key_idx(entries@, k@, 0),
        r <= entries@.len(),
{
    let n = entries.len();
    let mut i: usize = 0;
    while i < n
        invariant
            i <= n,
            n == entries@.len(),
            key_idx(entries@, k@, 0) == key_idx(entries@, k@, i as int),
        decreases n - i,
    {
        if str_eq(entries[i].0.as_str(), k) {
            proof {
                assert(key_idx(entries@, k@, i as int) == i as int);
            }
            return i;
        }
        proof {
            assert(key_idx(entries@, k@, i as int) == key_idx(entries@, k@, i + 1));
        }
        i = i + 1;
    }
    n
}

/// The string value under key `k`, as `lookup_str` describes it.
pub fn get_str(entries: &Vec<(String, DeclEntry)>, k: &str) -> (r: Option<String>)
    ensures
        match r {
            Some(s) => lookup_str(entries@, k@) == Some(s@),
            None => lookup_str(entries@, k@) is None,
        },
{
    let i = find_key(entries, k);
    if i < entries.len() {
        match &entries[i].1 {
            DeclEntry::Str(s) => Some(s.clone()),
            DeclEntry::Other => None,
        }
    } else {
        None
    }
}

} // verus!
