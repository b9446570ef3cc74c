//! The file tree shown beside the editor: folders that open and close,
//! one selected row, and a viewport over the visible rows.

use vstd::prelude::*;
use vstd::string::StringExecFns;
use crate::order::{entry_before, is_stable_sort, sort_entries};
use crate::paths::{
    file_name_of, path_file_name, path_has_prefix, path_starts_with, paths_equal, same_path,
};
use crate::strs::{has_substring, lowercase, str_contains, str_to_lowercase};

verus! {

/// A file or folder in the tree.
#[derive(Debug)]
pub struct FileEntry {
    pub path: String,
    pub name: String,
    pub is_dir: bool,
    pub is_expanded: bool,
    pub depth: usize,
    pub children: Vec<FileEntry>,
}

/// The rows that `e` shows: itself and, while it is open, the rows of its
/// children in order.
pub open spec fn rows_of(e: FileEntry) -> Seq<FileEntry>
    decreases e, 0nat,
{
    if e.is_expanded {
        seq![e] + rows_of_all(e.children@)
    } else {
        seq![e]
    }
}

/// The rows that the entries of `list` show, one entry after the other.
pub open spec fn rows_of_all(list: Seq<FileEntry>) -> Seq<FileEntry>
    decreases list, list.len(),
{
    if list.len() == 0 {
        Seq::empty()
    } else {
        rows_of_all(list.drop_last()) + rows_of(list.last())
    }
}

/// The name of the entry at `path`: the final component of the path, or
/// nothing where the path has none.
pub open spec fn name_of(path: Seq<char>) -> Seq<char> {
    match path_file_name(path) {
        Some(n) => n,
        None => Seq::empty(),
    }
}

/// Whether `e` is the closed, childless entry for `path` at `depth`.
pub open spec fn is_fresh(e: FileEntry, path: Seq<char>, is_dir: bool, depth: int) -> bool {
    &&& e.path@ == path
    &&& e.name@ == name_of(path)
    &&& e.is_dir == is_dir
    &&& !e.is_expanded
    &&& e.depth == depth
    &&& e.children@.len() == 0
}

/// Whether `a` and `b` are the same entry but for being open or closed
/// and for their children.
pub open spec fn same_head(a: FileEntry, b: FileEntry) -> bool {
    a.path == b.path && a.name == b.name && a.is_dir == b.is_dir && a.depth == b.depth
}

/// Whether `children` holds one fresh entry at `depth` for each item of
/// `listing`, sorted: folders first, then by name without regard to case.
/// The child at place `k` stands for the item at place `from[k]`, and
/// children of which neither has to stand first keep the order that
/// their items have in `listing`.
pub open spec fn lists_sorted(
    listing: Seq<(String, bool)>,
    depth: int,
    children: Seq<FileEntry>,
    from: Seq<int>,
) -> bool {
    &&& from.len() == listing.len()
    &&& children.len() == listing.len()
    &&& forall|k: int|
        0 <= k < children.len() ==> 0 <= #[trigger] from[k] < listing.len() && is_fresh(
            children[k],
            listing[from[k]].0@,
            listing[from[k]].1,
            depth,
        )
    &&& forall|i: int, j: int| 0 <= i < j < children.len() ==> from[i] != from[j]
    &&& forall|i: int, j: int|
        0 <= i < j < children.len() ==> entry_before(children[i], children[j]) || (!entry_before(
            children[j],
            children[i],
        ) && from[i] < from[j])
}

/// Whether `children` holds one fresh entry at `depth` for each item of
/// `listing`, sorted, with ties left as they came.
pub open spec fn has_listing(listing: Seq<(String, bool)>, depth: int, children: Seq<FileEntry>) -> bool {
    exists|from: Seq<int>| lists_sorted(listing, depth, children, from)
}

/// Whether `new` is the folder `old` opened on `listing`.
pub open spec fn is_loaded_from(old: FileEntry, listing: Seq<(String, bool)>, new: FileEntry) -> bool {
    &&& same_head(old, new)
    &&& new.is_expanded
    &&& has_listing(listing, old.depth + 1, new.children@)
}

/// Whether `new` is the folder `old` closed.
pub open spec fn is_collapsed_from(old: FileEntry, new: FileEntry) -> bool {
    same_head(old, new) && !new.is_expanded && new.children@.len() == 0
}

/// Whether `new` is `old` after a toggle: a file stays as it is, an open
/// folder closes and forgets its children, a closed folder opens on
/// `listing`.
pub open spec fn is_toggled_from(old: FileEntry, listing: Seq<(String, bool)>, new: FileEntry) -> bool {
    if !old.is_dir {
        new == old
    } else if old.is_expanded {
        is_collapsed_from(old, new)
    } else {
        is_loaded_from(old, listing, new)
    }
}

/// Whether `i` is the first child of `e` whose path begins `target`.
pub open spec fn leads_to(e: FileEntry, i: int, target: Seq<char>) -> bool {
    &&& 0 <= i < e.children@.len()
    &&& path_starts_with(target, e.children@[i].path@)
    &&& forall|j: int| 0 <= j < i ==> !path_starts_with(target, e.children@[j].path@)
}

/// Whether `new` is the tree `old` after the entry at `target` was
/// toggled. The entry is looked for from the root down: an entry whose
/// path is `target` is the one; otherwise the search goes into the first
/// child whose path begins `target`, and ends where there is none.
pub open spec fn is_toggled_at(
    old: FileEntry,
    target: Seq<char>,
    listing: Seq<(String, bool)>,
    new: FileEntry,
) -> bool
    decreases old,
{
    if same_path(old.path@, target) {
        is_toggled_from(old, listing, new)
    } else if exists|i: int| leads_to(old, i, target) {
        let i = choose|i: int| leads_to(old, i, target);
        &&& same_head(old, new)
        &&& new.is_expanded == old.is_expanded
        &&& new.children@.len() == old.children@.len()
        &&& forall|j: int|
            0 <= j < old.children@.len() && j != i ==> new.children@[j] == old.children@[j]
        &&& is_toggled_at(old.children@[i], target, listing, new.children@[i])
    } else {
        new == old
    }
}

/// Whether every entry of the tree `e` lies less than `bound` deep.
pub open spec fn depths_below(e: FileEntry, bound: int) -> bool
    decreases e,
{
    &&& e.depth < bound
    &&& forall|i: int| 0 <= i < e.children@.len() ==> depths_below(e.children@[i], bound)
}

/// The paths of the entries of the tree `e` whose lower-case name holds
/// `query`, parents before children and children in order.
pub open spec fn matches_in(e: FileEntry, query: Seq<char>) -> Seq<Seq<char>>
    decreases e, 0nat,
{
    if has_substring(lowercase(e.name@), query) {
        seq![e.path@] + matches_in_all(e.children@, query)
    } else {
        matches_in_all(e.children@, query)
    }
}

/// The matches of the trees of `list`, one tree after the other.
pub open spec fn matches_in_all(list: Seq<FileEntry>, query: Seq<char>) -> Seq<Seq<char>>
    decreases list, list.len(),
{
    if list.len() == 0 {
        Seq::empty()
    } else {
        matches_in_all(list.drop_last(), query) + matches_in(list.last(), query)
    }
}

impl FileEntry {
    /// The closed entry for `path` at `depth`; `is_dir` says whether the
    /// path is a folder.
    pub fn new(path: String, is_dir: bool, depth: usize) -> (e: Self)
        ensures
            is_fresh(e, path@, is_dir, depth as int),
            e.path == path,
    {
        let name = match file_name_of(path.as_str()) {
            Some(n) => n,
            None => String::new(),
        };
        Self { path, name, is_dir, is_expanded: false, depth, children: Vec::new() }
    }

    /// Opens a closed folder on `listing`, the paths found in it, each
    /// with whether it is a folder: the children are fresh entries for
    /// them, folders first and then by name without regard to case. A
    /// file and an open folder stay as they are.
    pub fn load_children(&mut self, listing: Vec<(String, bool)>)
        requires
            old(self).depth < usize::MAX,
        ensures
            !old(self).is_dir || old(self).is_expanded ==> *final(self) == *old(self),
            old(self).is_dir && !old(self).is_expanded ==> is_loaded_from(
                *old(self),
                listing@,
                *final(self),
            ),
    {
        if !self.is_dir || self.is_expanded {
            return ;
        }
        let depth = self.depth + 1;
        let mut children: Vec<FileEntry> = Vec::new();
        let mut listing = listing;
        let ghost items = listing@;
        let mut idx: usize = 0;
        while idx < listing.len()
            invariant
                idx <= listing.len(),
                listing@.len() == items.len(),
                forall|k: int| idx <= k < items.len() ==> listing@[k] == items[k],
                children@.len() == idx,
                forall|k: int|
                    0 <= k < idx ==> is_fresh(
                        #[trigger] children@[k],
                        items[k].0@,
                        items[k].1,
                        depth as int,
                    ),
            decreases listing.len() - idx,
        {
            let is_dir = listing[idx].1;
            let mut path = String::new();
            std::mem::swap(&mut path, &mut listing[idx].0);
            children.push(FileEntry::new(path, is_dir, depth));
            idx = idx + 1;
        }
        let ghost unsorted = children@;
        sort_entries(&mut children);
        proof {
            let from = choose|from: Seq<int>| is_stable_sort(unsorted, children@, from);
            assert(lists_sorted(items, depth as int, children@, from));
        }
        self.children = children;
        self.is_expanded = true;
    }

    /// Closes an open folder, which forgets its children, and opens a
    /// closed one on `listing`. A file stays as it is.
    pub fn toggle(&mut self, listing: Vec<(String, bool)>)
        requires
            old(self).depth < usize::MAX,
        ensures
            is_toggled_from(*old(self), listing@, *final(self)),
    {
        if !self.is_dir {
            return ;
        }
        if self.is_expanded {
            self.is_expanded = false;
            self.children.clear();
        } else {
            self.load_children(listing);
        }
    }

    /// Whether every entry of this tree can still take children one
    /// level further down.
    pub fn depths_fit(&self) -> (fit: bool)
        ensures
            fit == depths_below(*self, usize::MAX as int),
        decreases self,
    {
        if self.depth == usize::MAX {
            return false;
        }
        let mut idx: usize = 0;
        while idx < self.children.len()
            invariant
                self.depth < usize::MAX,
                idx <= self.children.len(),
                forall|j: int| 0 <= j < idx ==> depths_below(self.children@[j], usize::MAX as int),
            decreases self.children.len() - idx,
        {
            if !self.children[idx].depths_fit() {
                return false;
            }
            idx = idx + 1;
        }
        true
    }

    /// The rows that this entry shows, from top to bottom.
    pub fn flatten(&self) -> (rows: Vec<&FileEntry>)
        ensures
            rows@.len() == rows_of(*self).len(),
            forall|i: int| 0 <= i < rows@.len() ==> *rows@[i] == rows_of(*self)[i],
        decreases self,
    {
        let mut rows: Vec<&FileEntry> = Vec::new();
        rows.push(self);
        if self.is_expanded {
            let mut idx: usize = 0;
            while idx < self.children.len()
                invariant
                    idx <= self.children.len(),
                    rows@.len() == 1 + rows_of_all(self.children@.take(idx as int)).len(),
                    *rows@[0] == *self,
                    forall|i: int|
                        1 <= i < rows@.len() ==> *rows@[i] == rows_of_all(
                            self.children@.take(idx as int),
                        )[i - 1],
                decreases self.children.len() - idx,
            {
                let mut sub = self.children[idx].flatten();
                proof {
                    let before = self.children@.take(idx as int);
                    let after = self.children@.take(idx + 1);
                    assert(after.drop_last() =~= before);
                }
                rows.append(&mut sub);
                idx = idx + 1;
            }
            proof {
                assert(self.children@.take(idx as int) =~= self.children@);
            }
        }
        rows
    }
}

/// The first row of a viewport of `height` rows over `count` rows after
/// it has followed the selected row `selected` from `offset` by the
/// least amount, and then moved back as far as keeps it inside the rows.
pub open spec fn browser_scrolled(offset: usize, selected: usize, height: usize, count: int) -> int {
    let followed = if selected < offset {
        selected as int
    } else if selected >= offset + height {
        selected - height + 1
    } else {
        offset as int
    };
    if followed + height > count {
        if count >= height {
            count - height
        } else {
            0
        }
    } else {
        followed
    }
}

/// Whether the tree `new` is the tree `old` after the entry at the path
/// of the selected row was toggled on `listing`. Nothing changes where
/// the selection lies beyond the rows.
pub open spec fn toggles_selected(
    old: BrowserView,
    listing: Seq<(String, bool)>,
    new: BrowserView,
) -> bool {
    &&& new.selected_index == old.selected_index
    &&& new.scroll_offset == old.scroll_offset
    &&& old.selected_index >= old.rows().len() ==> new.root == old.root
    &&& old.selected_index < old.rows().len() ==> is_toggled_at(
        old.root,
        old.rows()[old.selected_index as int].path@,
        listing,
        new.root,
    )
}

/// The file tree as plain values.
pub struct BrowserView {
    /// The root of the tree.
    pub root: FileEntry,
    /// The selected row.
    pub selected_index: usize,
    /// The first row of the viewport.
    pub scroll_offset: usize,
}

impl BrowserView {
    /// The selected row can move on.
    pub open spec fn wf(self) -> bool {
        self.selected_index < usize::MAX
    }

    /// The rows on show, from top to bottom.
    pub open spec fn rows(self) -> Seq<FileEntry> {
        rows_of(self.root)
    }

    /// After the selection moved one row up, unless it was on the first.
    pub open spec fn move_up(self) -> BrowserView {
        if self.selected_index > 0 {
            BrowserView { selected_index: (self.selected_index - 1) as usize, ..self }
        } else {
            self
        }
    }

    /// After the selection moved one row down, unless it was on the last
    /// row or beyond it.
    pub open spec fn move_down(self) -> BrowserView {
        if self.selected_index + 1 < self.rows().len() {
            BrowserView { selected_index: (self.selected_index + 1) as usize, ..self }
        } else {
            self
        }
    }

    /// After the viewport of `height` rows has followed the selection.
    pub open spec fn update_scroll(self, height: usize) -> BrowserView {
        BrowserView {
            scroll_offset: browser_scrolled(
                self.scroll_offset,
                self.selected_index,
                height,
                self.rows().len() as int,
            ) as usize,
            ..self
        }
    }
}

/// A file tree with one selected row and a viewport.
pub struct FileBrowser {
    root: FileEntry,
    selected_index: usize,
    scroll_offset: usize,
}

impl View for FileBrowser {
    type V = BrowserView;

    closed spec fn view(&self) -> BrowserView {
        BrowserView {
            root: self.root,
            selected_index: self.selected_index,
            scroll_offset: self.scroll_offset,
        }
    }
}

/// Every tree shows at least its root.
pub proof fn lemma_rows_not_empty(e: FileEntry)
    ensures
        rows_of(e).len() >= 1,
        rows_of(e)[0] == e,
{
}

/// Toggling an entry of a tree whose entries lie less than `bound` deep
/// leaves a tree whose entries lie at most `bound` deep.
pub proof fn lemma_toggle_depths(
    old: FileEntry,
    target: Seq<char>,
    listing: Seq<(String, bool)>,
    new: FileEntry,
    bound: int,
)
    requires
        is_toggled_at(old, target, listing, new),
        depths_below(old, bound),
    ensures
        depths_below(new, bound + 1),
    decreases old,
{
    if same_path(old.path@, target) {
        if old.is_dir && !old.is_expanded {
            let depth = old.depth + 1;
            let from = choose|from: Seq<int>| lists_sorted(listing, depth, new.children@, from);
            assert forall|i: int| 0 <= i < new.children@.len() implies depths_below(
                new.children@[i],
                bound + 1,
            ) by {
                assert(0 <= from[i] < listing.len());
            }
        } else if !old.is_dir {
            lemma_depths_weaken(old, bound, bound + 1);
        }
    } else if exists|i: int| leads_to(old, i, target) {
        let i = choose|i: int| leads_to(old, i, target);
        assert forall|j: int| 0 <= j < new.children@.len() implies depths_below(
            new.children@[j],
            bound + 1,
        ) by {
            if j == i {
                lemma_toggle_depths(old.children@[i], target, listing, new.children@[i], bound);
            } else {
                lemma_depths_weaken(old.children@[j], bound, bound + 1);
            }
        }
    } else {
        lemma_depths_weaken(old, bound, bound + 1);
    }
}

/// A tree whose entries lie less than `low` deep lies less than any
/// larger bound deep.
pub proof fn lemma_depths_weaken(e: FileEntry, low: int, high: int)
    requires
        depths_below(e, low),
        low <= high,
    ensures
        depths_below(e, high),
    decreases e,
{
    assert forall|i: int| 0 <= i < e.children@.len() implies depths_below(
        e.children@[i],
        high,
    ) by {
        lemma_depths_weaken(e.children@[i], low, high);
    }
}

impl FileBrowser {
    /// The tree rooted at `root_path`, opened on `listing` where the root
    /// is a folder, with the first row selected.
    pub fn new(root_path: &str, is_dir: bool, listing: Vec<(String, bool)>) -> (b: Self)
        ensures
            b@.wf(),
            b@.selected_index == 0,
            b@.scroll_offset == 0,
            b@.root.path@ == root_path@,
            b@.root.name@ == name_of(root_path@),
            b@.root.is_dir == is_dir,
            b@.root.depth == 0,
            b@.root.is_expanded == is_dir,
            is_dir ==> has_listing(listing@, 1, b@.root.children@),
            !is_dir ==> b@.root.children@.len() == 0,
            depths_below(b@.root, 2),
    {
        let mut root = FileEntry::new(String::from_str(root_path), is_dir, 0);
        root.load_children(listing);
        proof {
            if is_dir {
                let from = choose|from: Seq<int>| lists_sorted(listing@, 1, root.children@, from);
                assert forall|i: int| 0 <= i < root.children@.len() implies depths_below(
                    root.children@[i],
                    2,
                ) by {
                    assert(0 <= from[i] < listing@.len());
                }
            }
        }
        Self { root, selected_index: 0, scroll_offset: 0 }
    }

    /// The rows on show, from top to bottom.
    pub fn get_visible_entries(&self) -> (rows: Vec<&FileEntry>)
        ensures
            rows@.len() == self@.rows().len(),
            forall|i: int| 0 <= i < rows@.len() ==> *rows@[i] == self@.rows()[i],
    {
        self.root.flatten()
    }

    /// The selected row, or `None` where the selection lies beyond the
    /// rows on show.
    pub fn selected_entry(&self) -> (entry: Option<&FileEntry>)
        ensures
            match entry {
                Some(e) => self@.selected_index < self@.rows().len() && *e == self@.rows()[self@.selected_index as int],
                None => self@.selected_index >= self@.rows().len(),
            },
    {
        let entries = self.get_visible_entries();
        if self.selected_index < entries.len() {
            Some(entries[self.selected_index])
        } else {
            None
        }
    }

    /// Moves the selection one row up, unless it is on the first row.
    pub fn move_up(&mut self)
        requires
            old(self)@.wf(),
        ensures
            final(self)@.wf(),
            final(self)@ == old(self)@.move_up(),
    {
        if self.selected_index > 0 {
            self.selected_index = self.selected_index - 1;
        }
    }

    /// Moves the selection one row down, unless it is on the last row or
    /// beyond it.
    pub fn move_down(&mut self)
        requires
            old(self)@.wf(),
        ensures
            final(self)@.wf(),
            final(self)@ == old(self)@.move_down(),
    {
        let count = self.get_visible_entries().len();
        proof {
            lemma_rows_not_empty(self.root);
        }
        if self.selected_index < count - 1 {
            self.selected_index = self.selected_index + 1;
        }
    }

    /// Toggles the entry whose path is that of the selected row: an open
    /// folder closes, a closed folder opens on `listing`, a file stays as
    /// it is. Nothing changes where the selection lies beyond the rows.
    pub fn toggle_selected(&mut self, listing: Vec<(String, bool)>)
        requires
            old(self)@.wf(),
            depths_below(old(self)@.root, usize::MAX as int),
        ensures
            final(self)@.wf(),
            toggles_selected(old(self)@, listing@, final(self)@),
            forall|bound: int|
                depths_below(old(self)@.root, bound) ==> depths_below(final(self)@.root, bound + 1),
    {
        let path = match self.selected_entry() {
            Some(e) => Some(e.path.clone()),
            None => None,
        };
        match path {
            Some(path) => {
                self.toggle_entry(path.as_str(), listing);
                proof {
                    assert forall|bound: int| depths_below(old(self)@.root, bound) implies depths_below(
                        self@.root,
                        bound + 1,
                    ) by {
                        lemma_toggle_depths(old(self)@.root, path@, listing@, self@.root, bound);
                    }
                }
            },
            None => {
                proof {
                    assert forall|bound: int| depths_below(old(self)@.root, bound) implies depths_below(
                        self@.root,
                        bound + 1,
                    ) by {
                        lemma_depths_weaken(self@.root, bound, bound + 1);
                    }
                }
            },
        }
    }

    /// Toggles the entry at `path`, looked for from the root down.
    fn toggle_entry(&mut self, path: &str, listing: Vec<(String, bool)>)
        requires
            depths_below(old(self)@.root, usize::MAX as int),
        ensures
            final(self)@.selected_index == old(self)@.selected_index,
            final(self)@.scroll_offset == old(self)@.scroll_offset,
            is_toggled_at(old(self)@.root, path@, listing@, final(self)@.root),
    {
        Self::toggle_recursive_static(&mut self.root, path, listing)
    }

    /// Toggles the entry at `target` in the tree `entry`: `entry` itself
    /// where its path is `target`, otherwise the one found in the first
    /// child whose path begins `target`.
    fn toggle_recursive_static(entry: &mut FileEntry, target: &str, listing: Vec<(String, bool)>)
        requires
            depths_below(*old(entry), usize::MAX as int),
        ensures
            is_toggled_at(*old(entry), target@, listing@, *final(entry)),
        decreases *old(entry),
    {
        if paths_equal(entry.path.as_str(), target) {
            entry.toggle(listing);
            return ;
        }
        let mut idx: usize = 0;
        while idx < entry.children.len()
            invariant
                *entry == *old(entry),
                !same_path(old(entry).path@, target@),
                depths_below(*old(entry), usize::MAX as int),
                idx <= entry.children.len(),
                forall|j: int| 0 <= j < idx ==> !path_starts_with(target@, entry.children@[j].path@),
            decreases entry.children.len() - idx,
        {
            if path_has_prefix(target, entry.children[idx].path.as_str()) {
                assert(leads_to(*old(entry), idx as int, target@));
                assert forall|i: int| leads_to(*old(entry), i, target@) implies i == idx by {}
                Self::toggle_recursive_static(&mut entry.children[idx], target, listing);
                return ;
            }
            idx = idx + 1;
        }
        assert forall|i: int| !leads_to(*old(entry), i, target@) by {}
    }

    /// Whether the selection can still move on, as is the case after
    /// every call.
    pub fn is_valid(&self) -> (valid: bool)
        ensures
            valid == self@.wf(),
    {
        self.selected_index < usize::MAX
    }

    /// Whether a toggle can go ahead: every entry of the tree can still
    /// take children one level further down.
    pub fn can_toggle(&self) -> (can: bool)
        ensures
            can == depths_below(self@.root, usize::MAX as int),
    {
        self.root.depths_fit()
    }

    /// The selected row.
    pub fn selected_index(&self) -> (index: usize)
        ensures
            index == self@.selected_index,
    {
        self.selected_index
    }

    /// The first row of the viewport.
    pub fn scroll_offset(&self) -> (offset: usize)
        ensures
            offset == self@.scroll_offset,
    {
        self.scroll_offset
    }

    /// Moves the viewport of `viewport_height` rows by the least amount
    /// that brings the selected row into it, and then back as far as
    /// keeps it from reaching beyond the last row.
    pub fn update_scroll(&mut self, viewport_height: usize)
        requires
            old(self)@.wf(),
        ensures
            final(self)@.wf(),
            final(self)@ == old(self)@.update_scroll(viewport_height),
            final(self)@.scroll_offset == browser_scrolled(
                old(self)@.scroll_offset,
                old(self)@.selected_index,
                viewport_height,
                old(self)@.rows().len() as int,
            ),
    {
        let visible_count = self.get_visible_entries().len();
        if self.selected_index < self.scroll_offset {
            self.scroll_offset = self.selected_index;
        } else if self.selected_index - self.scroll_offset >= viewport_height {
            self.scroll_offset = self.selected_index - viewport_height + 1;
        }
        if viewport_height > visible_count {
            self.scroll_offset = 0;
        } else if self.scroll_offset > visible_count - viewport_height {
            self.scroll_offset = visible_count - viewport_height;
        }
    }

    /// The paths of all entries of the tree whose name holds `query`,
    /// without regard to case, parents before children.
    pub fn search_files(&self, query: &str) -> (results: Vec<String>)
        ensures
            results@.len() == matches_in(self@.root, lowercase(query@)).len(),
            forall|i: int|
                0 <= i < results@.len() ==> results@[i]@ == matches_in(
                    self@.root,
                    lowercase(query@),
                )[i],
    {
        let query_lower = str_to_lowercase(query);
        let mut results: Vec<String> = Vec::new();
        Self::search_recursive(&self.root, query_lower.as_str(), &mut results);
        results
    }

    /// Adds the matches of the tree `entry` to `results`.
    fn search_recursive(entry: &FileEntry, query: &str, results: &mut Vec<String>)
        ensures
            final(results)@.len() == old(results)@.len() + matches_in(*entry, query@).len(),
            forall|i: int| 0 <= i < old(results)@.len() ==> final(results)@[i] == old(results)@[i],
            forall|i: int|
                0 <= i < matches_in(*entry, query@).len() ==> final(results)@[old(results)@.len()
                    + i]@ == matches_in(*entry, query@)[i],
        decreases entry,
    {
        let ghost start = results@.len() as int;
        if str_contains(str_to_lowercase(entry.name.as_str()).as_str(), query) {
            results.push(entry.path.clone());
        }
        let ghost head = results@.len() as int;
        let mut idx: usize = 0;
        while idx < entry.children.len()
            invariant
                idx <= entry.children.len(),
                start == old(results)@.len(),
                head == start + if has_substring(lowercase(entry.name@), query@) {
                    1int
                } else {
                    0int
                },
                results@.len() == head + matches_in_all(
                    entry.children@.take(idx as int),
                    query@,
                ).len(),
                forall|i: int| 0 <= i < start ==> results@[i] == old(results)@[i],
                head > start ==> results@[start]@ == entry.path@,
                forall|i: int|
                    0 <= i < results@.len() - head ==> results@[head + i]@ == matches_in_all(
                        entry.children@.take(idx as int),
                        query@,
                    )[i],
            decreases entry.children.len() - idx,
        {
            proof {
                let before = entry.children@.take(idx as int);
                let after = entry.children@.take(idx + 1);
                assert(after.drop_last() =~= before);
            }
            Self::search_recursive(&entry.children[idx], query, results);
            idx = idx + 1;
        }
        proof {
            assert(entry.children@.take(idx as int) =~= entry.children@);
        }
    }
}

} // verus!
