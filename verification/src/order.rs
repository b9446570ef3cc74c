//! The order in which a folder lists its entries: folders first, then by
//! name without regard to case.

use std::cmp::Ordering;
use vstd::prelude::*;
use crate::filebrowser::FileEntry;
use crate::strs::{lex_less, lowercase, str_less, str_to_lowercase};

verus! {

/// Whether `a` has to stand before `b`: a folder before a file, and among
/// folders or among files the one whose lower-case name is lower.
pub open spec fn entry_before(a: FileEntry, b: FileEntry) -> bool {
    key_before((a.is_dir, lowercase(a.name@)), (b.is_dir, lowercase(b.name@)))
}

/// Whether an entry with the key `a` has to stand before one with the
/// key `b`, a key being whether the entry is a folder and its name in
/// lower case.
pub open spec fn key_before(a: (bool, Seq<char>), b: (bool, Seq<char>)) -> bool {
    (a.0 && !b.0) || (a.0 == b.0 && lex_less(a.1, b.1))
}

/// How `a` and `b` compare in the order of a folder's entries.
pub fn entry_order(a: &FileEntry, b: &FileEntry) -> (o: Ordering)
    ensures
        (o == Ordering::Less) == entry_before(*a, *b),
        (o == Ordering::Greater) == (!entry_before(*a, *b) && entry_before(*b, *a)),
{
    let left = str_to_lowercase(a.name.as_str());
    let right = str_to_lowercase(b.name.as_str());
    key_order(a.is_dir, left.as_str(), b.is_dir, right.as_str())
}

/// How two entries compare in the order of a folder's entries, each
/// given by whether it is a folder and by its name in lower case.
pub fn key_order(a_is_dir: bool, a_name: &str, b_is_dir: bool, b_name: &str) -> (o: Ordering)
    ensures
        (o == Ordering::Less) == key_before((a_is_dir, a_name@), (b_is_dir, b_name@)),
        (o == Ordering::Greater) == (!key_before((a_is_dir, a_name@), (b_is_dir, b_name@))
            && key_before((b_is_dir, b_name@), (a_is_dir, a_name@))),
{
    if a_is_dir && !b_is_dir {
        Ordering::Less
    } else if !a_is_dir && b_is_dir {
        Ordering::Greater
    } else if str_less(a_name, b_name) {
        Ordering::Less
    } else if str_less(b_name, a_name) {
        Ordering::Greater
    } else {
        Ordering::Equal
    }
}

/// `sort_by` of slices with `entry_order` as the comparison: the entries
/// are rearranged so that none stands behind one it has to stand before,
/// and entries of which neither has to stand before the other keep the
/// order they came in. `from` tells for each new place the old one.
#[verifier::external_body]
pub(crate) fn sort_entries(entries: &mut Vec<FileEntry>)
    ensures
        exists|from: Seq<int>| is_stable_sort(old(entries)@, final(entries)@, from),
{
    entries.sort_by(|a, b| entry_order(a, b))
}

/// Whether `after` holds the entries of `before` sorted, the entry at
/// place `k` having come from place `from[k]`, with ties left in the
/// order they came in.
pub open spec fn is_stable_sort(
    before: Seq<FileEntry>,
    after: Seq<FileEntry>,
    from: Seq<int>,
) -> bool {
    &&& from.len() == before.len()
    &&& after.len() == before.len()
    &&& forall|k: int|
        0 <= k < after.len() ==> 0 <= #[trigger] from[k] < before.len() && after[k]
            == before[from[k]]
    &&& forall|i: int, j: int| 0 <= i < j < after.len() ==> from[i] != from[j]
    &&& forall|i: int, j: int|
        0 <= i < j < after.len() ==> entry_before(after[i], after[j]) || (!entry_before(
            after[j],
            after[i],
        ) && from[i] < from[j])
}

} // verus!
