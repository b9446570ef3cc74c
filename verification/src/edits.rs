//! How insertions and deletions change the line structure of a text.

use vstd::prelude::*;
use crate::lines::{
    breaks_before, ends_break, is_break_char, lemma_breaks_agree, lemma_breaks_monotone,
    lemma_breaks_shifted, lemma_line_start, line_count, line_start, spliced,
};

verus! {

/// An insertion never lowers the number of lines.
pub proof fn lemma_splice_keeps_lines(s: Seq<char>, at: int, t: Seq<char>)
    requires
        0 <= at <= s.len(),
    ensures
        line_count(spliced(s, at, t)) >= line_count(s),
{
    let r = spliced(s, at, t);
    let n = s.len() as int;
    let m = t.len() as int;
    if m == 0 {
        assert(r =~= s);
    } else {
        assert forall|i: int| at <= i < n implies ends_break(s, i) == ends_break(r, i + m) by {}
        lemma_breaks_shifted(s, r, at, n, m);
        if at == 0 {
            lemma_breaks_monotone(r, 0, m);
        } else {
            assert forall|i: int| 0 <= i < at - 1 implies ends_break(s, i) == ends_break(r, i) by {}
            lemma_breaks_agree(s, r, at - 1);
            lemma_breaks_monotone(r, at - 1, at);
            lemma_breaks_monotone(r, at, at + 1);
            lemma_breaks_monotone(r, at + 1, at + m);
        }
    }
}

/// Deleting a character at or behind the start of line `k` leaves line
/// `k` in the text.
pub proof fn lemma_remove_keeps_line(s: Seq<char>, k: nat, at: int)
    requires
        k < line_count(s),
        line_start(s, k) <= at < s.len(),
    ensures
        k < line_count(s.remove(at)),
{
    let r = s.remove(at);
    let q = line_start(s, k);
    lemma_line_start(s, k);
    if k > 0 {
        assert forall|i: int| 0 <= i < q - 1 implies ends_break(s, i) == ends_break(r, i) by {}
        lemma_breaks_agree(s, r, q - 1);
        lemma_breaks_monotone(r, q, r.len() as int);
        if !ends_break(r, q - 1) {
            lemma_breaks_monotone(r, q + 1, r.len() as int);
        }
    }
}

/// Whether index `at` of `s` lies between the CR and the LF of one line
/// break.
pub open spec fn splits_break(s: Seq<char>, at: int) -> bool {
    0 < at < s.len() && s[at - 1] == '\r' && s[at] == '\n'
}

/// A character that ends no line and does not part a CR from its LF
/// leaves every break where it was: those before it stay, those behind
/// it move one place on.
pub proof fn lemma_insert_plain_char(s: Seq<char>, at: int, ch: char)
    requires
        0 <= at <= s.len(),
        !is_break_char(ch),
        !splits_break(s, at),
    ensures
        line_count(s.insert(at, ch)) == line_count(s),
        forall|n: int| 0 <= n <= at ==> breaks_before(s.insert(at, ch), n) == breaks_before(s, n),
        forall|n: int|
            at <= n <= s.len() ==> breaks_before(s.insert(at, ch), n + 1) == breaks_before(s, n),
        forall|i: int| 0 <= i < at ==> ends_break(s.insert(at, ch), i) == ends_break(s, i),
        forall|i: int| at <= i < s.len() ==> ends_break(s.insert(at, ch), i + 1) == ends_break(s, i),
{
    let r = s.insert(at, ch);
    assert forall|i: int| 0 <= i < at implies ends_break(r, i) == ends_break(s, i) by {}
    assert forall|i: int| at <= i < s.len() implies ends_break(s, i) == ends_break(r, i + 1) by {}
    assert forall|n: int| 0 <= n <= at implies breaks_before(r, n) == breaks_before(s, n) by {
        lemma_breaks_agree(r, s, n);
    }
    assert forall|n: int| at <= n <= s.len() implies breaks_before(r, n + 1) == breaks_before(
        s,
        n,
    ) by {
        lemma_breaks_agree(r, s, at);
        lemma_breaks_shifted(s, r, at, n, 1);
    }
}

/// Whether deleting the character at `at`, the last of a line break,
/// changes whether the CR before it ends a break of its own.
pub open spec fn unsettles_cr(s: Seq<char>, at: int) -> bool {
    &&& 0 < at < s.len()
    &&& s[at - 1] == '\r'
    &&& (s[at] == '\n') != (at + 1 < s.len() && s[at + 1] == '\n')
}

/// Deleting the last character of a line break that leaves a CR before it
/// as it was takes away exactly that break: the breaks before it stay and
/// those behind it move one place back.
pub proof fn lemma_remove_break(s: Seq<char>, at: int)
    requires
        ends_break(s, at),
        !unsettles_cr(s, at),
    ensures
        line_count(s.remove(at)) + 1 == line_count(s),
        forall|n: int| 0 <= n <= at ==> breaks_before(s.remove(at), n) == breaks_before(s, n),
        forall|i: int| 0 <= i < at ==> ends_break(s.remove(at), i) == ends_break(s, i),
{
    let r = s.remove(at);
    assert forall|i: int| 0 <= i < at implies ends_break(r, i) == ends_break(s, i) by {}
    assert forall|i: int| at <= i < r.len() implies ends_break(r, i) == ends_break(s, i + 1) by {}
    assert forall|n: int| 0 <= n <= at implies breaks_before(r, n) == breaks_before(s, n) by {
        lemma_breaks_agree(r, s, n);
    }
    lemma_breaks_shifted(r, s, at, r.len() as int, 1);
}

} // verus!
