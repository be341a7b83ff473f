//! Small helpers on strings and lists of strings.

use vstd::prelude::*;
use vstd::utf8::{decode_utf8, valid_utf8};

verus! {

/// Reads bytes as UTF-8 text with `String::from_utf8`, which gives the text
/// that the bytes encode, or fails where they are no UTF-8.
#[verifier::external_body]
pub(crate) fn text_from_utf8(bytes: Vec<u8>) -> (text: Option<String>)
    ensures
        match text {
            Some(s) => valid_utf8(bytes@) && s@ == decode_utf8(bytes@),
            None => !valid_utf8(bytes@),
        },
{
    String::from_utf8(bytes).ok()
}

/// True when the two strings hold the same characters.
pub fn text_eq(a: &str, b: &str) -> (same: bool)
    ensures
        same == (a@ == b@),
{
    let left = a.to_owned();
    let right = b.to_owned();
    left == right
}

/// A copy of a list of strings.
pub fn clone_texts(items: &Vec<String>) -> (copy: Vec<String>)
    ensures
        copy.deep_view() == items.deep_view(),
{
    let mut copy: Vec<String> = Vec::new();
    let mut i: usize = 0;
    while i < items.len()
        invariant
            i <= items.len(),
            copy.len() == i,
            forall|k: int| 0 <= k < i ==> copy[k]@ == items[k]@,
        decreases items.len() - i,
    {
        copy.push(items[i].clone());
        i += 1;
    }
    assert(copy.deep_view() =~= items.deep_view());
    copy
}

/// A copy of an optional string.
pub fn clone_opt_text(item: &Option<String>) -> (copy: Option<String>)
    ensures
        copy.deep_view() == item.deep_view(),
{
    match item {
        Some(s) => Some(s.clone()),
        None => None,
    }
}

/// The text `part` stands in the text `whole` at the position `i`.
pub open spec fn occurs_at(whole: Seq<char>, part: Seq<char>, i: int) -> bool {
    0 <= i && i + part.len() <= whole.len() && whole.subrange(i, i + part.len()) == part
}

/// The text `part` stands somewhere in the text `whole`.
pub open spec fn holds_text(whole: Seq<char>, part: Seq<char>) -> bool {
    exists|i: int| occurs_at(whole, part, i)
}

/// True when `part`, of `m` characters, stands in `whole`, of `n`
/// characters, at the position `i`.
fn occurs(whole: &str, part: &str, i: usize, n: usize, m: usize) -> (found: bool)
    requires
        n == whole@.len(),
        m == part@.len(),
        i + m <= n,
    ensures
        found == occurs_at(whole@, part@, i as int),
{
    let mut j: usize = 0;
    while j < m
        invariant
            j <= m,
            n == whole@.len(),
            m == part@.len(),
            i + m <= n,
            forall|k: int| 0 <= k < j ==> whole@[i + k] == part@[k],
        decreases m - j,
    {
        if whole.get_char(i + j) != part.get_char(j) {
            proof {
                assert(whole@.subrange(i as int, i + m)[j as int] == whole@[i + j]);
            }
            return false;
        }
        j += 1;
    }
    proof {
        assert(whole@.subrange(i as int, i + m) =~= part@);
    }
    true
}

/// True when the text `part` stands somewhere in the text `whole`.
pub fn contains_text(whole: &str, part: &str) -> (found: bool)
    ensures
        found == holds_text(whole@, part@),
{
    let n = whole.unicode_len();
    let m = part.unicode_len();
    if m > n {
        return false;
    }
    let last = n - m;
    let mut i: usize = 0;
    while i < last
        invariant
            n == whole@.len(),
            m == part@.len(),
            last == n - m,
            i <= last,
            forall|k: int| 0 <= k < i ==> !occurs_at(whole@, part@, k),
        decreases last - i,
    {
        if occurs(whole, part, i, n, m) {
            return true;
        }
        i += 1;
    }
    occurs(whole, part, last, n, m)
}

} // verus!
