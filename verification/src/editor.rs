//! The text buffer: a rope of characters with one cursor and one viewport.

use vstd::prelude::*;
use vstd::string::StringExecFns;
use crate::edits::{lemma_remove_keeps_line, lemma_splice_keeps_lines};
use crate::lines::{
    last_column, lemma_line_len, lemma_line_start, line_count, line_text, spliced,
};
use crate::model::{char_index_of, no_name, BufferView};
use crate::paths::file_name_of;
use crate::store::{
    rope_chars, rope_len_chars, rope_len_lines, rope_line, rope_line_to_char, slice_len_chars,
    TextSequence,
};

verus! {

/// A position in a text: a line and a column within it, both from 0.
#[derive(Debug, Clone, Copy, PartialEq, Eq)]
pub struct Cursor {
    pub line: usize,
    pub column: usize,
}

/// The last column of line `line` of `rope` that a cursor can rest on.
pub(crate) fn last_column_of(rope: &ropey::Rope, line: usize) -> (column: usize)
    requires
        line < line_count(rope_chars(*rope)),
    ensures
        column == last_column(rope_chars(*rope), line as nat),
{
    proof {
        lemma_line_len(rope_chars(*rope), line as nat);
    }
    let slice = rope_line(rope, line);
    let len = slice_len_chars(&slice);
    if len > 0 {
        len - 1
    } else {
        0
    }
}

impl Cursor {
    /// The cursor at the start of a text.
    pub fn new() -> (c: Self)
        ensures
            c.line == 0,
            c.column == 0,
    {
        Self { line: 0, column: 0 }
    }

    /// The index into `rope` that this cursor stands for. A line beyond
    /// the last reads as the last line, a column beyond the last of its
    /// line as that last column, so the index always lies in the text.
    pub fn char_index(&self, rope: &ropey::Rope) -> (index: usize)
        ensures
            index == char_index_of(rope_chars(*rope), *self),
            index <= rope_chars(*rope).len(),
    {
        let lines = rope_len_lines(rope);
        let total = rope_len_chars(rope);
        let line_idx = if self.line < lines {
            self.line
        } else {
            lines - 1
        };
        proof {
            lemma_line_len(rope_chars(*rope), line_idx as nat);
            lemma_line_start(rope_chars(*rope), line_idx as nat);
        }
        let start = rope_line_to_char(rope, line_idx);
        let last = last_column_of(rope, line_idx);
        let col = if self.column <= last {
            self.column
        } else {
            last
        };
        start + col
    }
}

/// What a save has to write, and where.
#[derive(Debug)]
pub struct PendingWrite {
    pub path: String,
    pub content: String,
}

/// An editable document: its text, one cursor, one viewport, the path it
/// is saved under and whether it changed since.
pub struct TextBuffer {
    rope: TextSequence,
    file_path: Option<String>,
    modified: bool,
    cursor: Cursor,
    scroll_offset: usize,
}

impl View for TextBuffer {
    type V = BufferView;

    closed spec fn view(&self) -> BufferView {
        BufferView {
            text: self.rope@,
            cursor: self.cursor,
            scroll_offset: self.scroll_offset,
            modified: self.modified,
            path: match self.file_path {
                Some(p) => Some(p@),
                None => None,
            },
        }
    }
}

impl TextBuffer {
    #[verifier::type_invariant]
    spec fn cursor_line_exists(self) -> bool {
        self@.wf()
    }

    /// An empty, unnamed document.
    pub fn new() -> (b: Self)
        ensures
            b@ == BufferView::fresh(Seq::empty(), None),
            b@.wf(),
    {
        Self {
            rope: TextSequence::new(),
            file_path: None,
            modified: false,
            cursor: Cursor::new(),
            scroll_offset: 0,
        }
    }

    /// An unnamed document that holds `text`.
    pub fn from_str(text: &str) -> (b: Self)
        ensures
            b@ == BufferView::fresh(text@, None),
            b@.wf(),
    {
        Self {
            rope: TextSequence::from_str(text),
            file_path: None,
            modified: false,
            cursor: Cursor::new(),
            scroll_offset: 0,
        }
    }

    /// The document that holds `content`, the text read from the file at
    /// `path`, and remembers that path.
    pub fn from_file(path: &str, content: &str) -> (b: Self)
        ensures
            b@ == BufferView::fresh(content@, Some(path@)),
            b@.wf(),
    {
        Self {
            rope: TextSequence::from_str(content),
            file_path: Some(String::from_str(path)),
            modified: false,
            cursor: Cursor::new(),
            scroll_offset: 0,
        }
    }

    /// The whole text as one string.
    pub fn text(&self) -> (t: String)
        ensures
            t@ == self@.text,
    {
        self.rope.to_text()
    }

    /// What saving under the remembered path has to write: the whole text,
    /// to that path. `None` for an unnamed document, which has nothing to
    /// write.
    pub fn save(&self) -> (w: Option<PendingWrite>)
        ensures
            match w {
                Some(p) => self@.path == Some(p.path@) && p.content@ == self@.text,
                None => self@.path is None,
            },
    {
        match &self.file_path {
            Some(path) => Some(PendingWrite { path: path.clone(), content: self.text() }),
            None => None,
        }
    }

    /// Records that the text was written to `path`: the document is now
    /// saved under that path and no longer counts as modified.
    pub fn save_to(&mut self, path: &str)
        ensures
            final(self)@ == old(self)@.saved(path@),
            final(self)@.wf(),
    {
        proof {
            use_type_invariant(&*self);
        }
        self.file_path = Some(String::from_str(path));
        self.modified = false;
    }

    /// Types `ch` at the cursor and moves the cursor one column on.
    pub fn insert_char(&mut self, ch: char)
        requires
            old(self)@.text.len() < usize::MAX,
            old(self)@.cursor.column < usize::MAX,
        ensures
            final(self)@ == old(self)@.insert_char(ch),
            final(self)@.wf(),
    {
        let pos = self.cursor.char_index(self.rope.rope());
        proof {
            use_type_invariant(&*self);
            assert(self.rope@.insert(pos as int, ch) =~= spliced(self.rope@, pos as int, seq![ch]));
            lemma_splice_keeps_lines(self.rope@, pos as int, seq![ch]);
        }
        self.rope.insert_char(pos, ch);
        self.cursor.column = self.cursor.column + 1;
        self.modified = true;
    }

    /// Puts `text` in at the cursor; the cursor stays where it is.
    pub fn insert(&mut self, text: &str)
        requires
            old(self)@.text.len() + text@.len() <= usize::MAX,
        ensures
            final(self)@ == old(self)@.insert(text@),
            final(self)@.wf(),
    {
        let pos = self.cursor.char_index(self.rope.rope());
        proof {
            use_type_invariant(&*self);
            lemma_splice_keeps_lines(self.rope@, pos as int, text@);
        }
        self.rope.insert(pos, text);
        self.modified = true;
    }

    /// Deletes the character at the cursor, if there is one; the cursor
    /// stays where it is.
    pub fn delete_char(&mut self)
        ensures
            final(self)@ == old(self)@.delete_char(),
            final(self)@.wf(),
    {
        let pos = self.cursor.char_index(self.rope.rope());
        proof {
            use_type_invariant(&*self);
        }
        if pos < self.rope.len() {
            proof {
                lemma_line_len(self.rope@, self.cursor.line as nat);
                lemma_remove_keeps_line(self.rope@, self.cursor.line as nat, pos as int);
            }
            self.rope.remove(pos, 1);
            self.modified = true;
        }
    }

    /// Deletes the character left of the cursor and steps onto its place.
    /// At the start of a line it deletes the last character of the line
    /// above, which joins the two lines where that was the whole break.
    pub fn backspace(&mut self)
        ensures
            final(self)@ == old(self)@.backspace(),
            final(self)@.wf(),
    {
        proof {
            use_type_invariant(&*self);
        }
        if self.cursor.column > 0 {
            self.cursor.column = self.cursor.column - 1;
            self.delete_char();
        } else if self.cursor.line > 0 {
            let above = self.cursor.line - 1;
            let column = last_column_of(self.rope.rope(), above);
            self.cursor.line = above;
            self.cursor.column = column;
            self.delete_char();
        }
    }

    /// Moves the cursor one line up, cutting its column down to that line.
    pub fn move_cursor_up(&mut self)
        ensures
            final(self)@ == old(self)@.move_up(),
            final(self)@.wf(),
    {
        proof {
            use_type_invariant(&*self);
        }
        if self.cursor.line > 0 {
            let above = self.cursor.line - 1;
            let last = last_column_of(self.rope.rope(), above);
            self.cursor.line = above;
            if self.cursor.column > last {
                self.cursor.column = last;
            }
        }
    }

    /// Moves the cursor one line down, cutting its column down to that
    /// line.
    pub fn move_cursor_down(&mut self)
        ensures
            final(self)@ == old(self)@.move_down(),
            final(self)@.wf(),
    {
        proof {
            use_type_invariant(&*self);
        }
        let lines = self.rope.line_count();
        if self.cursor.line < lines - 1 {
            let below = self.cursor.line + 1;
            let last = last_column_of(self.rope.rope(), below);
            self.cursor.line = below;
            if self.cursor.column > last {
                self.cursor.column = last;
            }
        }
    }

    /// Moves the cursor one column left; from the start of a line, to the
    /// last column of the line above.
    pub fn move_cursor_left(&mut self)
        ensures
            final(self)@ == old(self)@.move_left(),
            final(self)@.wf(),
    {
        proof {
            use_type_invariant(&*self);
        }
        if self.cursor.column > 0 {
            self.cursor.column = self.cursor.column - 1;
        } else if self.cursor.line > 0 {
            let above = self.cursor.line - 1;
            let column = last_column_of(self.rope.rope(), above);
            self.cursor.line = above;
            self.cursor.column = column;
        }
    }

    /// Moves the cursor one column right; from the last column of a line,
    /// to the start of the line below.
    pub fn move_cursor_right(&mut self)
        ensures
            final(self)@ == old(self)@.move_right(),
            final(self)@.wf(),
    {
        proof {
            use_type_invariant(&*self);
        }
        let last = last_column_of(self.rope.rope(), self.cursor.line);
        if self.cursor.column < last {
            self.cursor.column = self.cursor.column + 1;
        } else if self.cursor.line < self.rope.line_count() - 1 {
            self.cursor.line = self.cursor.line + 1;
            self.cursor.column = 0;
        }
    }

    /// The cursor as it is stored. Its line always exists in the text.
    pub fn cursor(&self) -> (c: &Cursor)
        ensures
            *c == self@.cursor,
            self@.wf(),
    {
        proof {
            use_type_invariant(self);
        }
        &self.cursor
    }

    /// The number of characters of the text.
    pub fn len(&self) -> (n: usize)
        ensures
            n == self@.text.len(),
    {
        self.rope.len()
    }

    /// The number of lines of the text, which is at least one.
    pub fn len_lines(&self) -> (n: usize)
        ensures
            n == line_count(self@.text),
            n >= 1,
    {
        self.rope.line_count()
    }

    /// Line `idx` with its line break, or the empty string where the text
    /// has no such line.
    pub fn line(&self, idx: usize) -> (s: String)
        ensures
            s@ == if idx < line_count(self@.text) {
                line_text(self@.text, idx as nat)
            } else {
                Seq::<char>::empty()
            },
    {
        if idx < self.rope.line_count() {
            self.rope.line(idx)
        } else {
            String::new()
        }
    }

    /// Whether the text changed since it was last saved.
    pub fn is_modified(&self) -> (m: bool)
        ensures
            m == self@.modified,
    {
        self.modified
    }

    /// The path the document is saved under, if it has one.
    pub fn file_path(&self) -> (p: Option<&str>)
        ensures
            match p {
                Some(path) => self@.path == Some(path@),
                None => self@.path is None,
            },
    {
        match &self.file_path {
            Some(path) => Some(path.as_str()),
            None => None,
        }
    }

    /// The name to show for the document: the final component of its
    /// path, or `[No Name]`.
    pub fn file_name(&self) -> (name: String)
        ensures
            name@ == self@.file_name(),
    {
        match &self.file_path {
            Some(path) => Self::shown_name(file_name_of(path.as_str())),
            None => Self::shown_name(None),
        }
    }

    /// The name to show for a document whose path has the final component
    /// `name`: that component, or `[No Name]` where there is none.
    pub fn shown_name(name: Option<String>) -> (shown: String)
        ensures
            shown@ == match name {
                Some(n) => n@,
                None => no_name(),
            },
    {
        match name {
            Some(n) => n,
            None => String::from_str("[No Name]"),
        }
    }

    /// The first line of the viewport.
    pub fn scroll_offset(&self) -> (offset: usize)
        ensures
            offset == self@.scroll_offset,
    {
        self.scroll_offset
    }

    /// Moves the viewport of `viewport_height` rows by the least amount
    /// that brings the cursor's line into it. With no row there is
    /// nothing to bring it into, and the viewport stays.
    pub fn update_scroll(&mut self, viewport_height: usize)
        ensures
            final(self)@ == old(self)@.update_scroll(viewport_height),
            final(self)@.wf(),
            viewport_height > 0 ==> final(self)@.scroll_offset <= final(self)@.cursor.line
                < final(self)@.scroll_offset + viewport_height,
            viewport_height > 0 ==> final(self)@.scroll_offset < line_count(final(self)@.text),
    {
        proof {
            use_type_invariant(&*self);
        }
        if viewport_height > 0 {
            if self.cursor.line < self.scroll_offset {
                self.scroll_offset = self.cursor.line;
            } else if self.cursor.line - self.scroll_offset >= viewport_height {
                self.scroll_offset = self.cursor.line - viewport_height + 1;
            }
        }
    }
}

} // verus!
