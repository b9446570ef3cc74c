//! The sequence store: a rope of characters, reached through a handful of
//! calls whose contracts are stated over the characters it holds.
//!
//! The rope is built with its default features, under which it takes as
//! line breaks exactly those that `crate::lines` describes.

use vstd::prelude::*;
use crate::lines::{
    breaks_before, lemma_line_len, line_count, line_len, line_start, line_text, spliced,
};

verus! {

#[verifier::external_type_specification]
#[verifier::external_body]
pub struct ExRope(ropey::Rope);

#[verifier::external_type_specification]
#[verifier::external_body]
pub struct ExRopeSlice<'a>(ropey::RopeSlice<'a>);

/// The characters that a rope holds, in order.
pub uninterp spec fn rope_chars(r: ropey::Rope) -> Seq<char>;

/// The characters that a slice of a rope holds, in order.
pub uninterp spec fn slice_chars(s: ropey::RopeSlice<'_>) -> Seq<char>;

/// `Rope::new`: the rope it makes holds no character.
#[verifier::external_body]
pub(crate) fn rope_new() -> (r: ropey::Rope)
    ensures
        rope_chars(r) == Seq::<char>::empty(),
{
    ropey::Rope::new()
}

/// `Rope::from_str`: the rope it makes holds the characters of `text`.
#[verifier::external_body]
pub(crate) fn rope_from_str(text: &str) -> (r: ropey::Rope)
    ensures
        rope_chars(r) == text@,
{
    ropey::Rope::from_str(text)
}

/// `Rope::len_chars`: the number of characters held.
#[verifier::external_body]
pub(crate) fn rope_len_chars(r: &ropey::Rope) -> (n: usize)
    ensures
        n == rope_chars(*r).len(),
    no_unwind
{
    r.len_chars()
}

/// `Rope::len_lines`: the number of line breaks held, plus one.
#[verifier::external_body]
pub(crate) fn rope_len_lines(r: &ropey::Rope) -> (n: usize)
    ensures
        n == line_count(rope_chars(*r)),
{
    r.len_lines()
}

/// `Rope::line_to_char`: the index of the first character of line
/// `line_idx`, and the number of characters held where `line_idx` is the
/// number of lines. It panics on a larger `line_idx`.
#[verifier::external_body]
pub(crate) fn rope_line_to_char(r: &ropey::Rope, line_idx: usize) -> (n: usize)
    requires
        line_idx <= line_count(rope_chars(*r)),
    ensures
        n == line_start(rope_chars(*r), line_idx as nat),
{
    r.line_to_char(line_idx)
}

/// `Rope::line`: the slice that holds line `line_idx`, its line break
/// included. It panics unless `line_idx` is below the number of lines.
#[verifier::external_body]
pub(crate) fn rope_line<'a>(r: &'a ropey::Rope, line_idx: usize) -> (s: ropey::RopeSlice<'a>)
    requires
        line_idx < line_count(rope_chars(*r)),
    ensures
        slice_chars(s) == line_text(rope_chars(*r), line_idx as nat),
{
    r.line(line_idx)
}

/// `Rope::char_to_line`: the number of the line that holds the character
/// at `char_idx`, which is the number of line breaks that end before it;
/// for the index one past the end, the last line. It panics on a larger
/// `char_idx`.
#[verifier::external_body]
pub(crate) fn rope_char_to_line(r: &ropey::Rope, char_idx: usize) -> (n: usize)
    requires
        char_idx <= rope_chars(*r).len(),
    ensures
        n == breaks_before(rope_chars(*r), char_idx as int),
{
    r.char_to_line(char_idx)
}

/// `RopeSlice::len_chars`: the number of characters of the slice.
#[verifier::external_body]
pub(crate) fn slice_len_chars(s: &ropey::RopeSlice<'_>) -> (n: usize)
    ensures
        n == slice_chars(*s).len(),
{
    s.len_chars()
}

/// `RopeSlice`'s `to_string`: a string of the characters of the slice.
#[verifier::external_body]
pub(crate) fn slice_to_string(s: &ropey::RopeSlice<'_>) -> (text: String)
    ensures
        text@ == slice_chars(*s),
{
    s.to_string()
}

/// `Rope`'s `to_string`: a string of all the characters held.
#[verifier::external_body]
pub(crate) fn rope_to_string(r: &ropey::Rope) -> (text: String)
    ensures
        text@ == rope_chars(*r),
{
    r.to_string()
}

/// `Rope::insert_char`: `ch` enters at index `char_idx` and what stood
/// there moves one place on. It panics where `char_idx` is beyond the end.
#[verifier::external_body]
pub(crate) fn rope_insert_char(r: &mut ropey::Rope, char_idx: usize, ch: char)
    requires
        char_idx <= rope_chars(*old(r)).len(),
        rope_chars(*old(r)).len() < usize::MAX,
    ensures
        rope_chars(*final(r)) == rope_chars(*old(r)).insert(char_idx as int, ch),
    no_unwind
{
    r.insert_char(char_idx, ch)
}

/// `Rope::insert`: the characters of `text` enter at index `char_idx`, in
/// order, between what stood before it and what stood from it on. It
/// panics where `char_idx` is beyond the end.
#[verifier::external_body]
pub(crate) fn rope_insert(r: &mut ropey::Rope, char_idx: usize, text: &str)
    requires
        char_idx <= rope_chars(*old(r)).len(),
        rope_chars(*old(r)).len() + text@.len() <= usize::MAX,
    ensures
        rope_chars(*final(r)) == spliced(rope_chars(*old(r)), char_idx as int, text@),
    no_unwind
{
    r.insert(char_idx, text)
}

/// `Rope::remove` on the range `start..end`: the characters at these
/// indices leave and the rest closes up. It panics where `start` is
/// above `end` or `end` is beyond the end.
#[verifier::external_body]
pub(crate) fn rope_remove(r: &mut ropey::Rope, start: usize, end: usize)
    requires
        start <= end <= rope_chars(*old(r)).len(),
    ensures
        rope_chars(*final(r)) == rope_chars(*old(r)).subrange(0, start as int) + rope_chars(
            *old(r),
        ).subrange(end as int, rope_chars(*old(r)).len() as int),
    no_unwind
{
    r.remove(start..end)
}

/// The text `s` without the `count` characters from index `at` on; `s`
/// itself where it has no such stretch.
pub open spec fn without(s: Seq<char>, at: int, count: int) -> Seq<char> {
    if 0 <= at && 0 <= count && at + count <= s.len() {
        s.subrange(0, at) + s.subrange(at + count, s.len() as int)
    } else {
        s
    }
}

/// A text that can be changed at any index and read line by line. Its
/// view is the sequence of its characters.
pub struct TextSequence {
    rope: ropey::Rope,
}

impl View for TextSequence {
    type V = Seq<char>;

    closed spec fn view(&self) -> Seq<char> {
        rope_chars(self.rope)
    }
}

impl TextSequence {
    /// The empty text.
    pub fn new() -> (t: Self)
        ensures
            t@ == Seq::<char>::empty(),
    {
        Self { rope: rope_new() }
    }

    /// The text that holds the characters of `text`.
    pub fn from_str(text: &str) -> (t: Self)
        ensures
            t@ == text@,
    {
        Self { rope: rope_from_str(text) }
    }

    /// The rope that holds the text.
    pub fn rope(&self) -> (r: &ropey::Rope)
        ensures
            rope_chars(*r) == self@,
    {
        &self.rope
    }

    /// The number of characters.
    pub fn len(&self) -> (n: usize)
        ensures
            n == self@.len(),
    {
        rope_len_chars(&self.rope)
    }

    /// The number of lines, which is at least one.
    pub fn line_count(&self) -> (n: usize)
        ensures
            n == line_count(self@),
            n >= 1,
    {
        rope_len_lines(&self.rope)
    }

    /// Puts `text` in at index `offset`; what stood from there on moves
    /// behind it.
    pub fn insert(&mut self, offset: usize, text: &str)
        requires
            offset <= old(self)@.len(),
            old(self)@.len() + text@.len() <= usize::MAX,
        ensures
            final(self)@ == spliced(old(self)@, offset as int, text@),
        no_unwind
    {
        rope_insert(&mut self.rope, offset, text);
    }

    /// Puts `ch` in at index `offset`; what stood from there on moves
    /// behind it.
    pub fn insert_char(&mut self, offset: usize, ch: char)
        requires
            offset <= old(self)@.len(),
            old(self)@.len() < usize::MAX,
        ensures
            final(self)@ == old(self)@.insert(offset as int, ch),
        no_unwind
    {
        rope_insert_char(&mut self.rope, offset, ch);
    }

    /// Takes out `count` characters from index `offset` on. Where the text
    /// has no such stretch, nothing changes.
    pub fn remove(&mut self, offset: usize, count: usize)
        ensures
            final(self)@ == without(old(self)@, offset as int, count as int),
        no_unwind
    {
        let len = rope_len_chars(&self.rope);
        if offset <= len && count <= len - offset {
            rope_remove(&mut self.rope, offset, offset + count);
        }
    }

    /// The index of the first character of line `line`; the length of the
    /// text where `line` is the number of lines.
    pub fn line_to_char(&self, line: usize) -> (offset: usize)
        requires
            line <= line_count(self@),
        ensures
            offset == line_start(self@, line as nat),
            offset <= self@.len(),
    {
        proof {
            lemma_line_len(self@, line as nat);
        }
        rope_line_to_char(&self.rope, line)
    }

    /// The number of the line that holds index `offset`: the number of
    /// line breaks that end before it.
    pub fn char_to_line(&self, offset: usize) -> (line: usize)
        requires
            offset <= self@.len(),
        ensures
            line == breaks_before(self@, offset as int),
            line < line_count(self@),
    {
        proof {
            crate::lines::lemma_breaks_monotone(self@, offset as int, self@.len() as int);
        }
        rope_char_to_line(&self.rope, offset)
    }

    /// Line `line` with its line break, which every line but the last has.
    pub fn line(&self, line: usize) -> (text: String)
        requires
            line < line_count(self@),
        ensures
            text@ == line_text(self@, line as nat),
    {
        let slice = rope_line(&self.rope, line);
        slice_to_string(&slice)
    }

    /// The number of characters of line `line`, its line break included.
    pub fn line_len(&self, line: usize) -> (n: usize)
        requires
            line < line_count(self@),
        ensures
            n == line_len(self@, line as nat),
    {
        proof {
            lemma_line_len(self@, line as nat);
        }
        let slice = rope_line(&self.rope, line);
        slice_len_chars(&slice)
    }

    /// The whole text as one string.
    pub fn to_text(&self) -> (text: String)
        ensures
            text@ == self@,
    {
        rope_to_string(&self.rope)
    }
}

} // verus!
