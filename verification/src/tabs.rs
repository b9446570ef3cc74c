//! The open documents as a row of tabs, one of which is active.

use vstd::prelude::*;
use vstd::string::StringExecFns;
use crate::editor::{PendingWrite, TextBuffer};
use crate::model::BufferView;
use crate::paths::{paths_equal, same_path};

verus! {

/// One open document and the number it was opened under.
pub struct Tab {
    pub buffer: TextBuffer,
    pub id: usize,
}

/// A tab as plain values.
pub struct TabView {
    pub buffer: BufferView,
    pub id: usize,
}

impl View for Tab {
    type V = TabView;

    open spec fn view(&self) -> TabView {
        TabView { buffer: self.buffer@, id: self.id }
    }
}

/// The title of a tab: the document's name, with a star behind it while
/// the document has unsaved changes.
pub open spec fn title_of(buffer: BufferView) -> Seq<char> {
    if buffer.modified {
        buffer.file_name() + "*"@
    } else {
        buffer.file_name()
    }
}

impl Tab {
    /// The tab that shows `buffer` under the number `id`.
    pub fn new(id: usize, buffer: TextBuffer) -> (t: Self)
        ensures
            t.id == id,
            t.buffer == buffer,
    {
        Self { buffer, id }
    }

    /// The title of the tab.
    pub fn title(&self) -> (title: String)
        ensures
            title@ == title_of(self.buffer@),
    {
        let name = self.buffer.file_name();
        if self.buffer.is_modified() {
            name.concat("*")
        } else {
            name
        }
    }
}

/// The row of tabs as plain values.
pub struct TabsView {
    /// The tabs, from left to right.
    pub tabs: Seq<Tab>,
    /// The place of the active tab in the row.
    pub active_index: usize,
    /// The number that the next new tab gets.
    pub next_id: usize,
}

/// Whether the tab at place `i` shows the file at `path`.
pub open spec fn shows_path(tabs: Seq<Tab>, i: int, path: Seq<char>) -> bool {
    &&& 0 <= i < tabs.len()
    &&& tabs[i].buffer@.path matches Some(p)
    &&& same_path(p, path)
}

/// Whether `i` is the first place at which a tab shows the file at `path`.
pub open spec fn first_showing(tabs: Seq<Tab>, i: int, path: Seq<char>) -> bool {
    shows_path(tabs, i, path) && forall|j: int| 0 <= j < i ==> !shows_path(tabs, j, path)
}

/// Whether the tab at place `i` has something to write when all are
/// saved: it has unsaved changes and a path.
pub open spec fn needs_write(tabs: Seq<Tab>, i: int) -> bool {
    0 <= i < tabs.len() && tabs[i].buffer@.modified && tabs[i].buffer@.path is Some
}

/// The places among the first `n` whose tabs have something to write, in
/// order.
pub open spec fn places_to_write(tabs: Seq<Tab>, n: int) -> Seq<int>
    decreases n,
{
    if n <= 0 {
        Seq::empty()
    } else if needs_write(tabs, n - 1) {
        places_to_write(tabs, n - 1).push(n - 1)
    } else {
        places_to_write(tabs, n - 1)
    }
}

/// Whether the row `new` is the row `old` with one more tab at its end,
/// which shows `buffer` under the next number and is active.
pub open spec fn adds_tab(old: TabsView, buffer: BufferView, new: TabsView) -> bool {
    &&& new.tabs.len() == old.tabs.len() + 1
    &&& new.tabs.drop_last() == old.tabs
    &&& new.tabs.last()@ == (TabView { buffer, id: old.next_id })
    &&& new.active_index == old.tabs.len()
    &&& new.next_id == old.next_id + 1
}

/// Whether the row `new` is the row `old` after the file at `path`, whose
/// text is `content`, was opened: the first tab that shows the file is
/// active, or, where none does, a new tab with that text.
pub open spec fn opens_file(
    old: TabsView,
    path: Seq<char>,
    content: Seq<char>,
    new: TabsView,
) -> bool {
    if exists|i: int| first_showing(old.tabs, i, path) {
        let i = choose|i: int| first_showing(old.tabs, i, path);
        new == (TabsView { active_index: i as usize, ..old })
    } else {
        adds_tab(old, BufferView::fresh(content, Some(path)), new)
    }
}

/// Whether the row `new` is the row `old` after the document at `place`
/// was saved under `path`. Nothing changes where `place` holds no tab.
pub open spec fn marks_saved(old: TabsView, place: usize, path: Seq<char>, new: TabsView) -> bool {
    &&& new.active_index == old.active_index
    &&& new.next_id == old.next_id
    &&& new.tabs.len() == old.tabs.len()
    &&& forall|i: int| 0 <= i < old.tabs.len() && i != place ==> new.tabs[i] == old.tabs[i]
    &&& place < old.tabs.len() ==> new.tabs[place as int]@ == (TabView {
        buffer: old.tabs[place as int].buffer@.saved(path),
        id: old.tabs[place as int].id,
    })
}

/// Whether the row `new` is the row `old` with the document of the active
/// tab changed to `buffer` and nothing else.
pub open spec fn edits_active(old: TabsView, new: TabsView, buffer: BufferView) -> bool {
    &&& new.active_index == old.active_index
    &&& new.next_id == old.next_id
    &&& new.tabs.len() == old.tabs.len()
    &&& forall|j: int|
        0 <= j < old.tabs.len() && j != old.active_index ==> new.tabs[j] == old.tabs[j]
    &&& new.active().id == old.active().id
    &&& new.active().buffer@ == buffer
}

impl TabsView {
    /// There is a tab, and the active place holds one.
    pub open spec fn wf(self) -> bool {
        self.tabs.len() >= 1 && self.active_index < self.tabs.len()
    }

    /// The active tab.
    pub open spec fn active(self) -> Tab {
        self.tabs[self.active_index as int]
    }

    /// The place that is active once the active tab is closed: the same
    /// place, or the last one where that was the last.
    pub open spec fn place_after_close(self) -> usize {
        if self.active_index + 1 >= self.tabs.len() {
            (self.tabs.len() - 2) as usize
        } else {
            self.active_index
        }
    }

    /// The place to the right of the active one, going round.
    pub open spec fn next_place(self) -> usize {
        if self.active_index + 1 >= self.tabs.len() {
            0
        } else {
            (self.active_index + 1) as usize
        }
    }

    /// The place to the left of the active one, going round.
    pub open spec fn prev_place(self) -> usize {
        if self.active_index == 0 {
            (self.tabs.len() - 1) as usize
        } else {
            (self.active_index - 1) as usize
        }
    }
}

/// The open tabs and which of them is active.
pub struct TabManager {
    tabs: Vec<Tab>,
    active_index: usize,
    next_id: usize,
}

impl View for TabManager {
    type V = TabsView;

    closed spec fn view(&self) -> TabsView {
        TabsView { tabs: self.tabs@, active_index: self.active_index, next_id: self.next_id }
    }
}

impl TabManager {
    /// One tab with an empty, unnamed document.
    pub fn new() -> (m: Self)
        ensures
            m@.wf(),
            m@.tabs.len() == 1,
            m@.tabs[0]@ == (TabView { buffer: BufferView::fresh(Seq::empty(), None), id: 0 }),
            m@.active_index == 0,
            m@.next_id == 1,
    {
        let mut tabs = Vec::new();
        tabs.push(Tab::new(0, TextBuffer::new()));
        Self { tabs, active_index: 0, next_id: 1 }
    }

    /// The first place at which a tab shows the file at `path`, if any
    /// does.
    pub fn find_open(&self, path: &str) -> (place: Option<usize>)
        ensures
            match place {
                Some(i) => first_showing(self@.tabs, i as int, path@),
                None => forall|j: int| !shows_path(self@.tabs, j, path@),
            },
    {
        let mut idx: usize = 0;
        while idx < self.tabs.len()
            invariant
                idx <= self.tabs.len(),
                forall|j: int| 0 <= j < idx ==> !shows_path(self.tabs@, j, path@),
            decreases self.tabs.len() - idx,
        {
            let found = match self.tabs[idx].buffer.file_path() {
                Some(p) => paths_equal(p, path),
                None => false,
            };
            if found {
                return Some(idx);
            }
            idx = idx + 1;
        }
        None
    }

    /// Shows the file at `path`, whose text is `content`: where a tab
    /// shows that file already, the first such tab becomes active and
    /// `content` is not looked at; otherwise a new tab with that text
    /// joins the row at its end and becomes active.
    pub fn open_file(&mut self, path: &str, content: &str)
        requires
            old(self)@.wf(),
            old(self)@.next_id < usize::MAX,
        ensures
            final(self)@.wf(),
            opens_file(old(self)@, path@, content@, final(self)@),
    {
        match self.find_open(path) {
            Some(idx) => {
                assert forall|i: int| first_showing(self@.tabs, i, path@) implies i == idx by {}
                self.active_index = idx;
            },
            None => {
                let tab = Tab::new(self.next_id, TextBuffer::from_file(path, content));
                self.push_active(tab);
                assert(self.tabs@.drop_last() =~= old(self).tabs@);
            },
        }
    }

    /// Puts `tab` at the end of the row, makes it active and moves on to
    /// the next number.
    fn push_active(&mut self, tab: Tab)
        requires
            old(self)@.wf(),
            old(self).next_id < usize::MAX,
        ensures
            final(self)@.wf(),
            final(self).tabs@ == old(self).tabs@.push(tab),
            final(self).active_index == old(self).tabs@.len(),
            final(self).next_id == old(self).next_id + 1,
    {
        let place = self.tabs.len();
        self.next_id = self.next_id + 1;
        self.tabs.push(tab);
        self.active_index = place;
    }

    /// Opens a new tab with an empty, unnamed document at the end of the
    /// row and makes it active.
    pub fn new_tab(&mut self)
        requires
            old(self)@.wf(),
            old(self)@.next_id < usize::MAX,
        ensures
            final(self)@.wf(),
            adds_tab(old(self)@, BufferView::fresh(Seq::empty(), None), final(self)@),
    {
        let tab = Tab::new(self.next_id, TextBuffer::new());
        self.push_active(tab);
        assert(self.tabs@.drop_last() =~= old(self).tabs@);
    }

    /// Closes the active tab unless it is the only one, and says whether
    /// it did. The tab that took its place becomes active, or the last
    /// tab where the closed one was the last.
    pub fn close_current(&mut self) -> (closed: bool)
        requires
            old(self)@.wf(),
        ensures
            final(self)@.wf(),
            closed == (old(self)@.tabs.len() > 1),
            !closed ==> final(self)@ == old(self)@,
            closed ==> final(self)@ == (TabsView {
                tabs: old(self)@.tabs.remove(old(self)@.active_index as int),
                active_index: old(self)@.place_after_close(),
                next_id: old(self)@.next_id,
            }),
    {
        if self.tabs.len() <= 1 {
            return false;
        }
        let left = self.tabs.len() - 1;
        if self.active_index >= left {
            let place = self.active_index;
            self.active_index = left - 1;
            self.tabs.remove(place);
        } else {
            self.tabs.remove(self.active_index);
        }
        true
    }

    /// Makes the tab to the right active, going round from the last to
    /// the first.
    pub fn next_tab(&mut self)
        requires
            old(self)@.wf(),
        ensures
            final(self)@.wf(),
            final(self)@ == (TabsView {
                active_index: old(self)@.next_place(),
                ..old(self)@
            }),
    {
        if self.tabs.len() > 1 {
            self.active_index = if self.active_index + 1 >= self.tabs.len() {
                0
            } else {
                self.active_index + 1
            };
        }
    }

    /// Makes the tab to the left active, going round from the first to
    /// the last.
    pub fn prev_tab(&mut self)
        requires
            old(self)@.wf(),
        ensures
            final(self)@.wf(),
            final(self)@ == (TabsView {
                active_index: old(self)@.prev_place(),
                ..old(self)@
            }),
    {
        if self.tabs.len() > 1 {
            self.active_index = if self.active_index == 0 {
                self.tabs.len() - 1
            } else {
                self.active_index - 1
            };
        }
    }

    /// The active tab, to read and to change.
    pub fn active_tab(&mut self) -> (tab: &mut Tab)
        requires
            old(self)@.wf(),
        ensures
            *tab == old(self)@.active(),
            final(self)@ == (TabsView {
                tabs: old(self)@.tabs.update(old(self)@.active_index as int, *final(tab)),
                ..old(self)@
            }),
            final(self)@.wf(),
    {
        &mut self.tabs[self.active_index]
    }

    /// The document of the active tab, to read and to change.
    pub fn active_buffer(&mut self) -> (buffer: &mut TextBuffer)
        requires
            old(self)@.wf(),
        ensures
            *buffer == old(self)@.active().buffer,
            final(self)@ == (TabsView {
                tabs: old(self)@.tabs.update(
                    old(self)@.active_index as int,
                    Tab { buffer: *final(buffer), id: old(self)@.active().id },
                ),
                ..old(self)@
            }),
            final(self)@.wf(),
    {
        &mut self.tabs[self.active_index].buffer
    }

    /// Records that the document of the tab at `place` was written to
    /// `path`: it is now saved under that path and no longer counts as
    /// modified. No tab changes where `place` holds none.
    pub fn saved(&mut self, place: usize, path: &str)
        requires
            old(self)@.wf(),
        ensures
            final(self)@.wf(),
            marks_saved(old(self)@, place, path@, final(self)@),
    {
        if place < self.tabs.len() {
            self.tabs[place].buffer.save_to(path);
        }
    }

    /// The tabs, from left to right.
    pub fn tabs(&self) -> (row: &[Tab])
        ensures
            row@ == self@.tabs,
    {
        self.tabs.as_slice()
    }

    /// The place of the active tab.
    pub fn active_index(&self) -> (place: usize)
        ensures
            place == self@.active_index,
    {
        self.active_index
    }

    /// Whether there is a tab and the active place holds one, as is the
    /// case after every call.
    pub fn is_valid(&self) -> (valid: bool)
        ensures
            valid == self@.wf(),
    {
        self.tabs.len() >= 1 && self.active_index < self.tabs.len()
    }

    /// The number that the next new tab gets.
    pub fn next_id(&self) -> (id: usize)
        ensures
            id == self@.next_id,
    {
        self.next_id
    }

    /// Whether any tab has unsaved changes.
    pub fn has_modified(&self) -> (any: bool)
        ensures
            any == exists|i: int| 0 <= i < self@.tabs.len() && self@.tabs[i].buffer@.modified,
    {
        let mut idx: usize = 0;
        while idx < self.tabs.len()
            invariant
                idx <= self.tabs.len(),
                forall|j: int| 0 <= j < idx ==> !self.tabs@[j].buffer@.modified,
            decreases self.tabs.len() - idx,
        {
            if self.tabs[idx].buffer.is_modified() {
                return true;
            }
            idx = idx + 1;
        }
        false
    }

    /// What saving the active tab has to write; `None` where its document
    /// is unnamed.
    pub fn save_current(&self) -> (w: Option<PendingWrite>)
        requires
            self@.wf(),
        ensures
            match w {
                Some(p) => self@.active().buffer@.path == Some(p.path@) && p.content@
                    == self@.active().buffer@.text,
                None => self@.active().buffer@.path is None,
            },
    {
        self.tabs[self.active_index].buffer.save()
    }

    /// What saving every tab with unsaved changes has to write: for each
    /// such tab that has a path, from left to right, its place and its
    /// write. Unnamed documents have nothing to write.
    pub fn save_all(&self) -> (writes: Vec<(usize, PendingWrite)>)
        ensures
            writes@.len() == places_to_write(self@.tabs, self@.tabs.len() as int).len(),
            forall|k: int|
                0 <= k < writes@.len() ==> {
                    let i = #[trigger] places_to_write(self@.tabs, self@.tabs.len() as int)[k];
                    &&& writes@[k].0 == i
                    &&& needs_write(self@.tabs, i)
                    &&& self@.tabs[i].buffer@.path == Some(writes@[k].1.path@)
                    &&& writes@[k].1.content@ == self@.tabs[i].buffer@.text
                },
    {
        let mut writes: Vec<(usize, PendingWrite)> = Vec::new();
        let mut idx: usize = 0;
        while idx < self.tabs.len()
            invariant
                idx <= self.tabs.len(),
                writes@.len() == places_to_write(self.tabs@, idx as int).len(),
                forall|k: int|
                    0 <= k < writes@.len() ==> {
                        let i = #[trigger] places_to_write(self.tabs@, idx as int)[k];
                        &&& writes@[k].0 == i
                        &&& needs_write(self.tabs@, i)
                        &&& self.tabs@[i].buffer@.path == Some(writes@[k].1.path@)
                        &&& writes@[k].1.content@ == self.tabs@[i].buffer@.text
                    },
            decreases self.tabs.len() - idx,
        {
            if self.tabs[idx].buffer.is_modified() {
                match self.tabs[idx].buffer.save() {
                    Some(w) => {
                        writes.push((idx, w));
                    },
                    None => {},
                }
            }
            idx = idx + 1;
        }
        writes
    }
}

} // verus!
