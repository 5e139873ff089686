//! Searching and splitting byte text.

use vstd::prelude::*;
use vstd::slice::{slice_subrange, slice_to_vec};

verus! {

/// The line feed byte.
pub const LF: u8 = 0x0a;

/// The carriage return byte.
pub const CR: u8 = 0x0d;

/// `needle` occurs in `hay` at index `i`.
pub open spec fn occurs_at(hay: Seq<u8>, needle: Seq<u8>, i: int) -> bool {
    &&& 0 <= i
    &&& i + needle.len() <= hay.len()
    &&& hay.subrange(i, i + needle.len()) == needle
}

/// `needle` occurs somewhere in `hay`.
pub open spec fn contains(hay: Seq<u8>, needle: Seq<u8>) -> bool {
    exists|i: int| occurs_at(hay, needle, i)
}

/// `i` is the index of the leftmost occurrence of `needle` in `hay`.
pub open spec fn first_at(hay: Seq<u8>, needle: Seq<u8>, i: int) -> bool {
    &&& occurs_at(hay, needle, i)
    &&& forall|j: int| 0 <= j < i ==> !occurs_at(hay, needle, j)
}

/// The index of the leftmost occurrence of `needle` in `hay`, if there is one.
pub open spec fn first_occurrence(hay: Seq<u8>, needle: Seq<u8>) -> Option<int> {
    if contains(hay, needle) {
        Some(choose|i: int| first_at(hay, needle, i))
    } else {
        None
    }
}

/// A leftmost occurrence is the one that `first_occurrence` names.
pub proof fn lemma_first_occurrence(hay: Seq<u8>, needle: Seq<u8>, i: int)
    requires
        first_at(hay, needle, i),
    ensures
        first_occurrence(hay, needle) == Some(i),
{
}

/// What `first_occurrence` names is a leftmost occurrence.
pub proof fn lemma_first_occurrence_is_first(hay: Seq<u8>, needle: Seq<u8>)
    ensures
        match first_occurrence(hay, needle) {
            Some(i) => first_at(hay, needle, i),
            None => !contains(hay, needle),
        },
{
    if contains(hay, needle) {
        let some = choose|i: int| occurs_at(hay, needle, i);
        lemma_leftmost_exists(hay, needle, some);
    }
}

/// Below an occurrence at `i` there is a leftmost one.
proof fn lemma_leftmost_exists(hay: Seq<u8>, needle: Seq<u8>, i: int)
    requires
        occurs_at(hay, needle, i),
    ensures
        exists|k: int| first_at(hay, needle, k),
    decreases i,
{
    if exists|j: int| 0 <= j < i && occurs_at(hay, needle, j) {
        let j = choose|j: int| 0 <= j < i && occurs_at(hay, needle, j);
        lemma_leftmost_exists(hay, needle, j);
    } else {
        assert(first_at(hay, needle, i));
    }
}

/// `line` without one trailing carriage return.
pub open spec fn strip_cr(line: Seq<u8>) -> Seq<u8> {
    if line.len() > 0 && line.last() == CR {
        line.drop_last()
    } else {
        line
    }
}

/// The lines of `text`, in order.
///
/// A line ends at a line feed, or at a carriage return that a line feed
/// follows directly; neither belongs to the line. The last line need not be
/// ended, and an empty text has no lines.
pub open spec fn lines(text: Seq<u8>) -> Seq<Seq<u8>>
    decreases text.len(),
    via lines_decreases
{
    if text.len() == 0 {
        Seq::empty()
    } else {
        match first_occurrence(text, seq![LF]) {
            Some(i) => seq![strip_cr(text.take(i))] + lines(text.skip(i + 1)),
            None => seq![text],
        }
    }
}

#[via_fn]
proof fn lines_decreases(text: Seq<u8>) {
    lemma_first_occurrence_is_first(text, seq![LF]);
}

/// The byte strings that the vectors of `lines` hold.
pub open spec fn line_views(lines: Seq<Vec<u8>>) -> Seq<Seq<u8>> {
    lines.map_values(|line: Vec<u8>| line@)
}

/// Compares two byte strings.
pub fn bytes_equal(a: &[u8], b: &[u8]) -> (same: bool)
    ensures
        same == (a@ == b@),
{
    if a.len() != b.len() {
        return false;
    }
    let mut k: usize = 0;
    while k < a.len()
        invariant
            a@.len() == b@.len(),
            k <= a@.len(),
            forall|j: int| 0 <= j < k ==> a@[j] == b@[j],
        decreases a@.len() - k,
    {
        if a[k] != b[k] {
            return false;
        }
        k += 1;
    }
    assert(a@ =~= b@);
    true
}

/// Tells whether `needle` occurs in `hay` at index `i`.
pub fn matches_at(hay: &[u8], needle: &[u8], i: usize) -> (found: bool)
    ensures
        found == occurs_at(hay@, needle@, i as int),
{
    if needle.len() > hay.len() || i > hay.len() - needle.len() {
        return false;
    }
    bytes_equal(slice_subrange(hay, i, i + needle.len()), needle)
}

/// Finds the leftmost occurrence of `needle` in `hay`.
pub fn find(hay: &[u8], needle: &[u8]) -> (found: Option<usize>)
    ensures
        match found {
            Some(i) => first_at(hay@, needle@, i as int) && first_occurrence(hay@, needle@)
                == Some(i as int),
            None => !contains(hay@, needle@) && first_occurrence(hay@, needle@).is_none(),
        },
{
    if needle.len() > hay.len() {
        return None;
    }
    let last: usize = hay.len() - needle.len();
    let mut i: usize = 0;
    loop
        invariant
            last == hay@.len() - needle@.len(),
            i <= last,
            forall|j: int| 0 <= j < i ==> !occurs_at(hay@, needle@, j),
        decreases last - i,
    {
        if matches_at(hay, needle, i) {
            proof {
                lemma_first_occurrence(hay@, needle@, i as int);
            }
            return Some(i);
        }
        if i == last {
            return None;
        }
        i += 1;
    }
}

/// Tells whether `needle` occurs in `hay`.
pub fn contains_bytes(hay: &[u8], needle: &[u8]) -> (found: bool)
    ensures
        found == contains(hay@, needle@),
{
    find(hay, needle).is_some()
}

/// Splits `text` into its lines.
pub fn split_lines(text: &[u8]) -> (out: Vec<Vec<u8>>)
    ensures
        line_views(out@) == lines(text@),
{
    let newline: Vec<u8> = vec![LF];
    let mut out: Vec<Vec<u8>> = Vec::new();
    let mut pos: usize = 0;
    assert(text@.skip(0) =~= text@);
    while pos < text.len()
        invariant
            newline@ == seq![LF],
            pos <= text@.len(),
            lines(text@) == line_views(out@) + lines(text@.skip(pos as int)),
        decreases text@.len() - pos,
    {
        let rest = slice_subrange(text, pos, text.len());
        match find(rest, newline.as_slice()) {
            Some(i) => {
                let end: usize = if i > 0 && rest[i - 1] == CR {
                    i - 1
                } else {
                    i
                };
                let line = slice_to_vec(slice_subrange(rest, 0, end));
                assert(line@ =~= strip_cr(rest@.take(i as int)));
                assert(rest@.skip(i + 1) =~= text@.skip(pos + i + 1));
                out.push(line);
                pos = pos + i + 1;
            },
            None => {
                let line = slice_to_vec(rest);
                out.push(line);
                pos = text.len();
            },
        }
    }
    out
}

} // verus!
