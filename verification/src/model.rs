//! The buffer seen as plain values: its text, cursor, viewport and flags,
//! and what each editing command makes of them.

use vstd::prelude::*;
use crate::editor::Cursor;
use crate::lines::{last_column, line_count, line_start, spliced};
use crate::paths::path_file_name;

verus! {

/// The state of a text buffer.
pub struct BufferView {
    /// The characters of the document.
    pub text: Seq<char>,
    /// The cursor as it is stored; reads clamp it into the text.
    pub cursor: Cursor,
    /// The first line of the viewport.
    pub scroll_offset: usize,
    /// Whether the text changed since it was last saved.
    pub modified: bool,
    /// The path the document is saved under, if it has one.
    pub path: Option<Seq<char>>,
}

/// The line that a cursor on line `line` reads: `line` itself, or the last
/// line where `line` is beyond it.
pub open spec fn clamped_line(s: Seq<char>, line: usize) -> nat {
    if line < line_count(s) {
        line as nat
    } else {
        (line_count(s) - 1) as nat
    }
}

/// The column that a cursor at `column` reads on line `k`.
pub open spec fn clamped_column(s: Seq<char>, k: nat, column: usize) -> int {
    if column <= last_column(s, k) {
        column as int
    } else {
        last_column(s, k)
    }
}

/// The index into `s` that the cursor `c` stands for, after clamping its
/// line into the text and its column into that line.
pub open spec fn char_index_of(s: Seq<char>, c: Cursor) -> int {
    let k = clamped_line(s, c.line);
    line_start(s, k) + clamped_column(s, k, c.column)
}

/// Whether `c` needs no clamping in `s`.
pub open spec fn valid_cursor(s: Seq<char>, c: Cursor) -> bool {
    c.line < line_count(s) && c.column <= last_column(s, c.line as nat)
}

/// The name shown for a document without a file name.
pub open spec fn no_name() -> Seq<char> {
    "[No Name]"@
}

/// The first line of a viewport of `height` rows after it has followed
/// the cursor line `line` from `offset` by the least amount.
pub open spec fn scrolled(offset: usize, line: usize, height: usize) -> usize {
    if height == 0 {
        offset
    } else if line < offset {
        line
    } else if line >= offset + height {
        (line - height + 1) as usize
    } else {
        offset
    }
}

impl BufferView {
    /// The cursor's line exists.
    pub open spec fn wf(self) -> bool {
        self.cursor.line < line_count(self.text)
    }

    /// A buffer that holds `text` under `path`, untouched.
    pub open spec fn fresh(text: Seq<char>, path: Option<Seq<char>>) -> BufferView {
        BufferView {
            text,
            cursor: Cursor { line: 0, column: 0 },
            scroll_offset: 0,
            modified: false,
            path,
        }
    }

    /// The index into the text that the cursor stands for.
    pub open spec fn char_index(self) -> int {
        char_index_of(self.text, self.cursor)
    }

    /// The same buffer with the cursor at `cursor`.
    pub open spec fn with_cursor(self, cursor: Cursor) -> BufferView {
        BufferView { cursor, ..self }
    }

    /// After `ch` was typed: it stands at the cursor's index and the
    /// column is one further.
    pub open spec fn insert_char(self, ch: char) -> BufferView {
        BufferView {
            text: self.text.insert(self.char_index(), ch),
            cursor: Cursor { line: self.cursor.line, column: (self.cursor.column + 1) as usize },
            modified: true,
            ..self
        }
    }

    /// After `t` was put in at the cursor's index; the cursor stays.
    pub open spec fn insert(self, t: Seq<char>) -> BufferView {
        BufferView { text: spliced(self.text, self.char_index(), t), modified: true, ..self }
    }

    /// After the character at the cursor's index was deleted, if there is
    /// one; the cursor stays.
    pub open spec fn delete_char(self) -> BufferView {
        if self.char_index() < self.text.len() {
            BufferView { text: self.text.remove(self.char_index()), modified: true, ..self }
        } else {
            self
        }
    }

    /// After a backspace: the character left of the cursor is deleted, and
    /// at the start of a line the break of the line above.
    pub open spec fn backspace(self) -> BufferView {
        if self.cursor.column > 0 {
            self.with_cursor(
                Cursor { line: self.cursor.line, column: (self.cursor.column - 1) as usize },
            ).delete_char()
        } else if self.cursor.line > 0 {
            self.with_cursor(self.end_of_line_above()).delete_char()
        } else {
            self
        }
    }

    /// The last column of the line above the cursor.
    pub open spec fn end_of_line_above(self) -> Cursor {
        Cursor {
            line: (self.cursor.line - 1) as usize,
            column: last_column(self.text, (self.cursor.line - 1) as nat) as usize,
        }
    }

    /// The cursor moved to `line`, its column cut down to that line.
    pub open spec fn on_line(self, line: usize) -> Cursor {
        Cursor { line, column: clamped_column(self.text, line as nat, self.cursor.column) as usize }
    }

    /// After a move up: one line up unless on the first line.
    pub open spec fn move_up(self) -> BufferView {
        if self.cursor.line > 0 {
            self.with_cursor(self.on_line((self.cursor.line - 1) as usize))
        } else {
            self
        }
    }

    /// After a move down: one line down unless on the last line.
    pub open spec fn move_down(self) -> BufferView {
        if self.cursor.line + 1 < line_count(self.text) {
            self.with_cursor(self.on_line((self.cursor.line + 1) as usize))
        } else {
            self
        }
    }

    /// After a move left: one column left, or from the start of a line to
    /// the last column of the line above.
    pub open spec fn move_left(self) -> BufferView {
        if self.cursor.column > 0 {
            self.with_cursor(
                Cursor { line: self.cursor.line, column: (self.cursor.column - 1) as usize },
            )
        } else if self.cursor.line > 0 {
            self.with_cursor(self.end_of_line_above())
        } else {
            self
        }
    }

    /// After a move right: one column right, or from the last column of a
    /// line to the start of the line below.
    pub open spec fn move_right(self) -> BufferView {
        if self.cursor.column < last_column(self.text, self.cursor.line as nat) {
            self.with_cursor(
                Cursor { line: self.cursor.line, column: (self.cursor.column + 1) as usize },
            )
        } else if self.cursor.line + 1 < line_count(self.text) {
            self.with_cursor(Cursor { line: (self.cursor.line + 1) as usize, column: 0 })
        } else {
            self
        }
    }

    /// After the viewport of `height` rows has followed the cursor.
    pub open spec fn update_scroll(self, height: usize) -> BufferView {
        BufferView {
            scroll_offset: scrolled(self.scroll_offset, self.cursor.line, height),
            ..self
        }
    }

    /// After a save under `path` went through.
    pub open spec fn saved(self, path: Seq<char>) -> BufferView {
        BufferView { path: Some(path), modified: false, ..self }
    }

    /// The name shown for the document: the final component of its path,
    /// or a placeholder where it has no path or the path has no such
    /// component.
    pub open spec fn file_name(self) -> Seq<char> {
        match self.path {
            Some(p) => match path_file_name(p) {
                Some(n) => n,
                None => no_name(),
            },
            None => no_name(),
        }
    }
}

} // verus!
