//! What holds of the editing commands, whatever the buffer.

use vstd::prelude::*;
use crate::editor::Cursor;
use crate::edits::{lemma_insert_plain_char, lemma_remove_break, splits_break, unsettles_cr};
use crate::lines::{
    breaks_before, ends_break, is_break_char, last_column, lemma_breaks_monotone, lemma_line_len,
    lemma_line_start, lemma_line_start_unique, line_count, line_len, line_start,
};
use crate::model::{char_index_of, scrolled, valid_cursor, BufferView};

verus! {

/// The shape of line `k`: no line break ends inside it before its last
/// character; every line but the last ends with a line break; the last
/// line runs to the end of the text and holds no line break.
pub proof fn lemma_line_shape(s: Seq<char>, k: nat)
    requires
        k < line_count(s),
    ensures
        forall|i: int| line_start(s, k) <= i < line_start(s, k + 1) - 1 ==> !ends_break(s, i),
        k + 1 < line_count(s) ==> ends_break(s, line_start(s, k + 1) - 1),
        k + 1 == line_count(s) ==> line_start(s, k + 1) == s.len() && forall|i: int|
            line_start(s, k) <= i < s.len() ==> !ends_break(s, i),
{
    let from = line_start(s, k);
    let next = line_start(s, k + 1);
    lemma_line_start(s, k);
    lemma_line_start(s, k + 1);
    lemma_line_len(s, k);
    assert forall|i: int| from <= i < next - 1 implies !ends_break(s, i) by {
        if ends_break(s, i) {
            lemma_breaks_monotone(s, from, i);
            lemma_breaks_monotone(s, i + 1, next - 1);
            lemma_breaks_monotone(s, next - 1, next);
            lemma_breaks_monotone(s, next, s.len() as int);
        }
    }
    if k + 1 == line_count(s) {
        assert forall|i: int| from <= i < s.len() implies !ends_break(s, i) by {
            if ends_break(s, i) {
                lemma_breaks_monotone(s, from, i);
                lemma_breaks_monotone(s, i + 1, s.len() as int);
            }
        }
    }
}

/// The line that holds the start of line `k` is line `k`: going from a
/// line to its first index and back gives the line.
pub proof fn lemma_line_of_line_start(s: Seq<char>, k: nat)
    requires
        k < line_count(s),
    ensures
        breaks_before(s, line_start(s, k)) == k,
{
    lemma_line_start(s, k);
}

/// An index lies in the line that holds it: at or behind the start of
/// that line, and before the start of the next line where there is one.
pub proof fn lemma_index_within_its_line(s: Seq<char>, n: int)
    requires
        0 <= n <= s.len(),
    ensures
        breaks_before(s, n) < line_count(s),
        line_start(s, breaks_before(s, n)) <= n,
        breaks_before(s, n) + 1 < line_count(s) ==> n < line_start(s, breaks_before(s, n) + 1),
{
    let k = breaks_before(s, n);
    lemma_breaks_monotone(s, n, s.len() as int);
    lemma_line_start(s, k);
    let from = line_start(s, k);
    if n < from {
        lemma_breaks_monotone(s, n, from - 1);
    }
    if k + 1 < line_count(s) {
        lemma_line_start(s, k + 1);
        let next = line_start(s, k + 1);
        if next <= n {
            lemma_breaks_monotone(s, next, n);
        }
    }
}

/// The index that a cursor stands for lies in the text, from its start to
/// its end, whatever line and column the cursor holds.
pub proof fn lemma_char_index_in_text(s: Seq<char>, c: Cursor)
    ensures
        0 <= char_index_of(s, c) <= s.len(),
{
    let k = crate::model::clamped_line(s, c.line);
    lemma_line_len(s, k);
    lemma_line_start(s, k);
}

/// A cursor that needs no clamping stands for the start of its line plus
/// its column.
pub proof fn lemma_char_index_of_valid(s: Seq<char>, c: Cursor)
    requires
        valid_cursor(s, c),
    ensures
        char_index_of(s, c) == line_start(s, c.line as nat) + c.column,
{
}

/// Typing a character that ends no line and then backspacing gives back
/// the text and the cursor. It holds from every cursor whose column needs
/// no clamping or whose line is empty, unless the cursor stands between
/// the CR and the LF of one line break.
pub proof fn lemma_insert_then_backspace(v: BufferView, ch: char)
    requires
        v.wf(),
        v.cursor.column <= last_column(v.text, v.cursor.line as nat) || line_len(
            v.text,
            v.cursor.line as nat,
        ) == 0,
        v.text.len() < usize::MAX,
        v.cursor.column < usize::MAX,
        !is_break_char(ch),
        !splits_break(v.text, v.char_index()),
    ensures
        v.insert_char(ch).backspace().text == v.text,
        v.insert_char(ch).backspace().cursor == v.cursor,
{
    let s = v.text;
    let k = v.cursor.line as nat;
    let at = v.char_index();
    let from = line_start(s, k);
    lemma_line_len(s, k);
    lemma_line_start(s, k);
    lemma_line_start(s, k + 1);
    let r = s.insert(at, ch);
    lemma_insert_plain_char(s, at, ch);
    lemma_line_start_unique(r, k, from);
    if k + 1 < line_count(s) {
        let next = line_start(s, k + 1);
        lemma_line_start_unique(r, k + 1, next + 1);
    } else {
        lemma_line_start(r, k + 1);
    }
    assert(line_len(r, k) == line_len(s, k) + 1);
    assert(char_index_of(r, v.cursor) == at);
    assert(r.remove(at) =~= s);
}

/// A move left from the start of the text changes nothing.
pub proof fn lemma_move_left_at_start(v: BufferView)
    requires
        v.cursor.line == 0,
        v.cursor.column == 0,
    ensures
        v.move_left() == v,
{
}

/// A move right from the last column of the last line, or from beyond
/// it, changes nothing.
pub proof fn lemma_move_right_at_end(v: BufferView)
    requires
        v.cursor.line + 1 >= line_count(v.text),
        v.cursor.column >= last_column(v.text, v.cursor.line as nat),
    ensures
        v.move_right() == v,
{
}

/// A move up from the first line and a move down from the last line
/// change nothing.
pub proof fn lemma_vertical_moves_at_edges(v: BufferView)
    ensures
        v.cursor.line == 0 ==> v.move_up() == v,
        v.cursor.line + 1 >= line_count(v.text) ==> v.move_down() == v,
{
}

/// The four moves take a cursor that needs no clamping to one that needs
/// none, and leave the text as it is.
pub proof fn lemma_moves_keep_cursor_valid(v: BufferView)
    requires
        valid_cursor(v.text, v.cursor),
        v.text.len() <= usize::MAX,
    ensures
        valid_cursor(v.text, v.move_up().cursor),
        valid_cursor(v.text, v.move_down().cursor),
        valid_cursor(v.text, v.move_left().cursor),
        valid_cursor(v.text, v.move_right().cursor),
        v.move_up().text == v.text && v.move_down().text == v.text,
        v.move_left().text == v.text && v.move_right().text == v.text,
{
    let k = v.cursor.line as nat;
    lemma_line_len(v.text, k);
    lemma_line_len(v.text, k + 1);
    if k > 0 {
        lemma_line_len(v.text, (k - 1) as nat);
    }
}

/// A backspace at the start of a line below the first takes away one
/// line, and leaves the cursor on the line above at the index where that
/// line's break ended. It holds wherever the deleted character is a whole
/// break, or the LF of a CR LF that another LF follows.
pub proof fn lemma_backspace_joins_lines(v: BufferView)
    requires
        v.wf(),
        v.text.len() <= usize::MAX,
        v.cursor.line > 0,
        v.cursor.column == 0,
        !unsettles_cr(v.text, line_start(v.text, v.cursor.line as nat) - 1),
    ensures
        line_count(v.backspace().text) + 1 == line_count(v.text),
        v.backspace().cursor.line == v.cursor.line - 1,
        line_start(v.backspace().text, (v.cursor.line - 1) as nat) + v.backspace().cursor.column
            == line_start(v.text, v.cursor.line as nat) - 1,
        v.backspace().text == v.text.remove(line_start(v.text, v.cursor.line as nat) - 1),
{
    let s = v.text;
    let k = v.cursor.line as nat;
    let j = (k - 1) as nat;
    let at = line_start(s, k) - 1;
    lemma_line_start(s, k);
    lemma_line_start(s, j);
    lemma_line_len(s, j);
    let r = s.remove(at);
    lemma_remove_break(s, at);
    let from = line_start(s, j);
    lemma_line_start_unique(r, j, from);
}

/// After the viewport has followed the cursor it shows the cursor's
/// line, for every viewport of at least one row.
pub proof fn lemma_scrolled_shows_line(offset: usize, line: usize, height: usize)
    requires
        height > 0,
    ensures
        scrolled(offset, line, height) <= line < scrolled(offset, line, height) + height,
        offset <= line < offset + height ==> scrolled(offset, line, height) == offset,
{
}

} // verus!
