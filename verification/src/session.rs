//! The editing session: the mode, the open tabs, the file tree and the
//! status line, what each command does to them, and what it leaves for
//! the outside to do.

use vstd::prelude::*;
use vstd::string::StringExecFns;
use crate::editor::PendingWrite;
use crate::filebrowser::{depths_below, toggles_selected, BrowserView, FileBrowser, FileEntry};
use crate::keys::{command_of, AppMode, Command, KeyPress};
use crate::model::BufferView;
use crate::project::FrameworkType;
use crate::strs::{lowercase, split_words, str_eq, string_pop, string_push, words_of};
use crate::tabs::{
    adds_tab, edits_active, first_showing, marks_saved, opens_file, TabManager, TabsView,
};
use crate::theme::{theme_of, MaterialTheme};

verus! {

/// Which message the end of a write leaves on the status line.
#[derive(Debug, Clone, Copy, PartialEq, Eq)]
pub enum WriteReport {
    /// The write was asked for by key.
    KeySave,
    /// The write was asked for on the command line.
    CommandSave,
    /// The write leaves no message.
    Silent,
}

/// What a command leaves for the outside to do. Each has an answer that
/// the session takes once it is done.
pub enum Action {
    /// Nothing.
    Idle,
    /// Write `write` for the tab at `place`, then call `write_finished`.
    Write { place: usize, write: PendingWrite, report: WriteReport },
    /// Read the folder at `path`, then call `folder_listed`.
    ListFolder { path: String },
    /// Read the file at `path`, then call `file_read`.
    ReadFile { path: String, name: String },
    /// Show the colours of `theme`.
    ThemeChanged { theme: MaterialTheme },
}

/// The session as plain values.
pub struct SessionView {
    pub should_quit: bool,
    pub mode: AppMode,
    pub theme: MaterialTheme,
    pub tabs: TabsView,
    pub browser: Option<BrowserView>,
    pub show_file_browser: bool,
    pub status: Seq<char>,
    pub command: Seq<char>,
}

/// The name shown for a framework; `PHP` where none was found.
pub open spec fn framework_name(framework: Option<FrameworkType>) -> Seq<char> {
    match framework {
        Some(FrameworkType::PrestaShop) => "PrestaShop"@,
        Some(FrameworkType::Laravel) => "Laravel"@,
        Some(FrameworkType::Symfony) => "Symfony"@,
        _ => "PHP"@,
    }
}

/// The status line after a write that went through.
pub open spec fn saved_message(report: WriteReport, status: Seq<char>) -> Seq<char> {
    match report {
        WriteReport::KeySave => "File saved"@,
        WriteReport::CommandSave => "Saved"@,
        WriteReport::Silent => status,
    }
}

/// The status line after a write that failed with `error`.
pub open spec fn failed_message(
    report: WriteReport,
    error: Seq<char>,
    status: Seq<char>,
) -> Seq<char> {
    match report {
        WriteReport::KeySave => "Error saving: "@ + error,
        WriteReport::CommandSave => "Error: "@ + error,
        WriteReport::Silent => status,
    }
}

impl SessionView {
    /// The tabs and the file tree are in order.
    pub open spec fn wf(self) -> bool {
        self.tabs.wf() && (self.browser matches Some(b) ==> b.wf())
    }

    /// The machine has room for one more command: a further tab number,
    /// a further character in the active document and a further column.
    pub open spec fn has_room(self) -> bool {
        &&& self.tabs.next_id < usize::MAX
        &&& self.buffer().text.len() < usize::MAX
        &&& self.buffer().cursor.column < usize::MAX
    }

    /// The active document.
    pub open spec fn buffer(self) -> BufferView {
        self.tabs.active().buffer@
    }

    /// The row that Enter acts on: the selected row of the file tree,
    /// while the tree is shown.
    pub open spec fn target(self) -> Option<FileEntry> {
        match self.browser {
            Some(b) => if self.show_file_browser && b.selected_index < b.rows().len() {
                Some(b.rows()[b.selected_index as int])
            } else {
                None
            },
            None => None,
        }
    }
}

/// Whether `new` is `old` with the active document changed to `buffer`.
pub open spec fn edits(old: SessionView, buffer: BufferView, new: SessionView) -> bool {
    new == (SessionView { tabs: new.tabs, ..old }) && edits_active(old.tabs, new.tabs, buffer)
}

/// Whether `new` is `old` with the file tree changed to `browser`.
pub open spec fn browses(old: SessionView, browser: BrowserView, new: SessionView) -> bool {
    new == (SessionView { browser: Some(browser), ..old })
}

/// Whether `new` is `old` after a move in the file tree while it is
/// shown, which is lost where there is no tree, and else after a move of
/// the cursor.
pub open spec fn navigates(
    old: SessionView,
    browser: spec_fn(BrowserView) -> BrowserView,
    buffer: BufferView,
    new: SessionView,
) -> bool {
    if old.show_file_browser {
        match old.browser {
            Some(b) => browses(old, browser(b), new),
            None => new == old,
        }
    } else {
        edits(old, buffer, new)
    }
}

/// Whether `action` is what a save of the active document leaves to do:
/// the write of its text to its path, or nothing for an unnamed one.
pub open spec fn save_action(old: SessionView, report: WriteReport, action: Action) -> bool {
    match old.buffer().path {
        Some(p) => {
            &&& action matches Action::Write { place, write, report: r }
            &&& place == old.tabs.active_index
            &&& write.path@ == p
            &&& write.content@ == old.buffer().text
            &&& r == report
        },
        None => action is Idle,
    }
}

/// Whether `new` and `action` are what a save of the active document
/// makes of `old`: an unnamed document counts as saved on the spot.
pub open spec fn starts_save(
    old: SessionView,
    report: WriteReport,
    new: SessionView,
    action: Action,
) -> bool {
    &&& save_action(old, report, action)
    &&& new == if old.buffer().path is None {
        SessionView { status: saved_message(report, old.status), ..old }
    } else {
        old
    }
}

/// Whether `new` and `action` are what the theme command with the
/// lower-case name `name` makes of `old`.
pub open spec fn themed(old: SessionView, name: Seq<char>, new: SessionView, action: Action) -> bool {
    match theme_of(name) {
        Some(t) => new == (SessionView { theme: t, ..old }) && action
            == (Action::ThemeChanged { theme: t }),
        None => new == (SessionView { status: "Invalid theme name"@, ..old }) && action is Idle,
    }
}

/// Whether `new` and `action` are what the command line `words` makes of
/// `old`.
pub open spec fn ran_words(
    old: SessionView,
    words: Seq<Seq<char>>,
    new: SessionView,
    action: Action,
) -> bool {
    if words.len() == 0 {
        new == old && action is Idle
    } else if words[0] == "q"@ || words[0] == "quit"@ {
        new == (SessionView { should_quit: true, ..old }) && action is Idle
    } else if words[0] == "w"@ || words[0] == "write"@ {
        starts_save(old, WriteReport::CommandSave, new, action)
    } else if words[0] == "wq"@ {
        new == (SessionView { should_quit: true, ..old }) && save_action(
            old,
            WriteReport::Silent,
            action,
        )
    } else if words[0] == "theme"@ {
        if words.len() > 1 {
            themed(old, lowercase(words[1]), new, action)
        } else {
            new == (SessionView {
                status: "Available: ocean, palenight, darker, lighter, deepocean"@,
                ..old
            }) && action is Idle
        }
    } else {
        new == (SessionView { status: "Unknown command: "@ + words[0], ..old }) && action is Idle
    }
}

/// Whether `new` and `action` are what Enter makes of `old`: on a folder
/// of the file tree its listing is asked for, on a file that a tab shows
/// that tab comes up, on another file its text is asked for, and without
/// a selected row nothing happens.
pub open spec fn activated(old: SessionView, new: SessionView, action: Action) -> bool {
    match old.target() {
        None => new == old && action is Idle,
        Some(e) => if e.is_dir {
            &&& new == old
            &&& action matches Action::ListFolder { path }
            &&& path@ == e.path@
        } else if exists|i: int| first_showing(old.tabs.tabs, i, e.path@) {
            &&& action is Idle
            &&& opens_file(old.tabs, e.path@, Seq::empty(), new.tabs)
            &&& new == (SessionView {
                tabs: new.tabs,
                status: "Opened: "@ + e.name@,
                show_file_browser: false,
                ..old
            })
        } else {
            &&& new == old
            &&& action matches Action::ReadFile { path, name }
            &&& path@ == e.path@
            &&& name@ == e.name@
        },
    }
}

/// Whether `new` and `action` are what the command `cmd` makes of `old`.
pub open spec fn applied(old: SessionView, cmd: Command, new: SessionView, action: Action) -> bool {
    match cmd {
        Command::Quit => new == (SessionView { should_quit: true, ..old }) && action is Idle,
        Command::InsertMode => new == (SessionView {
            mode: AppMode::Insert,
            status: "-- INSERT --"@,
            ..old
        }) && action is Idle,
        Command::CommandMode => new == (SessionView {
            mode: AppMode::Command,
            command: Seq::empty(),
            ..old
        }) && action is Idle,
        Command::NormalMode => new == (SessionView {
            mode: AppMode::Normal,
            status: "Normal mode"@,
            ..old
        }) && action is Idle,
        Command::Cancel => new == (SessionView {
            mode: AppMode::Normal,
            command: Seq::empty(),
            ..old
        }) && action is Idle,
        Command::Run => ran_words(
            SessionView { mode: AppMode::Normal, command: Seq::empty(), ..old },
            words_of(old.command),
            new,
            action,
        ),
        Command::ToggleBrowser => new == (SessionView {
            show_file_browser: !old.show_file_browser,
            ..old
        }) && action is Idle,
        Command::Save => starts_save(old, WriteReport::KeySave, new, action),
        Command::NewTab => {
            &&& adds_tab(old.tabs, BufferView::fresh(Seq::empty(), None), new.tabs)
            &&& new == (SessionView { tabs: new.tabs, status: "New tab created"@, ..old })
            &&& action is Idle
        },
        Command::CloseTab => new == (SessionView {
            tabs: if old.tabs.tabs.len() > 1 {
                TabsView {
                    tabs: old.tabs.tabs.remove(old.tabs.active_index as int),
                    active_index: old.tabs.place_after_close(),
                    next_id: old.tabs.next_id,
                }
            } else {
                old.tabs
            },
            ..old
        }) && action is Idle,
        Command::NextTab => new == (SessionView {
            tabs: TabsView { active_index: old.tabs.next_place(), ..old.tabs },
            ..old
        }) && action is Idle,
        Command::PrevTab => new == (SessionView {
            tabs: TabsView { active_index: old.tabs.prev_place(), ..old.tabs },
            ..old
        }) && action is Idle,
        Command::NavUp => navigates(
            old,
            |b: BrowserView| b.move_up(),
            old.buffer().move_up(),
            new,
        ) && action is Idle,
        Command::NavDown => navigates(
            old,
            |b: BrowserView| b.move_down(),
            old.buffer().move_down(),
            new,
        ) && action is Idle,
        Command::CursorUp => edits(old, old.buffer().move_up(), new) && action is Idle,
        Command::CursorDown => edits(old, old.buffer().move_down(), new) && action is Idle,
        Command::CursorLeft => edits(old, old.buffer().move_left(), new) && action is Idle,
        Command::CursorRight => edits(old, old.buffer().move_right(), new) && action is Idle,
        Command::Activate => activated(old, new, action),
        Command::Type(c) => edits(old, old.buffer().insert_char(c), new) && action is Idle,
        Command::Backspace => edits(old, old.buffer().backspace(), new) && action is Idle,
        Command::Delete => edits(old, old.buffer().delete_char(), new) && action is Idle,
        Command::CommandChar(c) => new == (SessionView { command: old.command.push(c), ..old })
            && action is Idle,
        Command::CommandErase => new == (SessionView {
            command: if old.command.len() > 0 {
                old.command.drop_last()
            } else {
                old.command
            },
            ..old
        }) && action is Idle,
        Command::Nothing => new == old && action is Idle,
    }
}

/// One editing session.
pub struct Session {
    should_quit: bool,
    mode: AppMode,
    theme: MaterialTheme,
    tab_manager: TabManager,
    file_browser: Option<FileBrowser>,
    show_file_browser: bool,
    status_message: String,
    command_input: String,
}

impl View for Session {
    type V = SessionView;

    closed spec fn view(&self) -> SessionView {
        SessionView {
            should_quit: self.should_quit,
            mode: self.mode,
            theme: self.theme,
            tabs: self.tab_manager@,
            browser: match self.file_browser {
                Some(b) => Some(b@),
                None => None,
            },
            show_file_browser: self.show_file_browser,
            status: self.status_message@,
            command: self.command_input@,
        }
    }
}

/// The name shown for a framework; `PHP` where none was found.
pub fn name_of_framework(framework: Option<FrameworkType>) -> (name: &'static str)
    ensures
        name@ == framework_name(framework),
{
    match framework {
        Some(FrameworkType::PrestaShop) => "PrestaShop",
        Some(FrameworkType::Laravel) => "Laravel",
        Some(FrameworkType::Symfony) => "Symfony",
        _ => "PHP",
    }
}

impl Session {
    /// A session in normal mode with one empty tab and the file tree
    /// `file_browser` on show, for a project of `framework`.
    pub fn new(file_browser: Option<FileBrowser>, framework: Option<FrameworkType>) -> (s: Self)
        requires
            file_browser matches Some(b) ==> b@.wf(),
        ensures
            s@.wf(),
            s@.has_room(),
            !s@.should_quit,
            s@.mode == AppMode::Normal,
            s@.theme == MaterialTheme::Ocean,
            s@.tabs.tabs.len() == 1,
            s@.tabs.active_index == 0,
            s@.tabs.next_id == 1,
            s@.buffer() == BufferView::fresh(Seq::empty(), None),
            s@.browser == match file_browser {
                Some(b) => Some(b@),
                None => None,
            },
            s@.show_file_browser,
            s@.status == "PHP Sunshine IDE - "@ + framework_name(framework) + " Project Ready"@,
            s@.command == Seq::<char>::empty(),
    {
        let status = String::from_str("PHP Sunshine IDE - ").concat(
            name_of_framework(framework),
        ).concat(" Project Ready");
        Self {
            should_quit: false,
            mode: AppMode::Normal,
            theme: MaterialTheme::Ocean,
            tab_manager: TabManager::new(),
            file_browser,
            show_file_browser: true,
            status_message: status,
            command_input: String::new(),
        }
    }

    /// Whether the session is over.
    pub fn should_quit(&self) -> (quit: bool)
        ensures
            quit == self@.should_quit,
    {
        self.should_quit
    }

    /// The mode.
    pub fn mode(&self) -> (mode: AppMode)
        ensures
            mode == self@.mode,
    {
        self.mode
    }

    /// The colour theme.
    pub fn theme(&self) -> (theme: MaterialTheme)
        ensures
            theme == self@.theme,
    {
        self.theme
    }

    /// The tabs.
    pub fn tabs(&self) -> (tabs: &TabManager)
        ensures
            tabs@ == self@.tabs,
    {
        &self.tab_manager
    }

    /// The file tree, if there is one.
    pub fn file_browser(&self) -> (browser: Option<&FileBrowser>)
        ensures
            match browser {
                Some(b) => self@.browser == Some(b@),
                None => self@.browser is None,
            },
    {
        match &self.file_browser {
            Some(b) => Some(b),
            None => None,
        }
    }

    /// Whether the file tree is shown.
    pub fn show_file_browser(&self) -> (shown: bool)
        ensures
            shown == self@.show_file_browser,
    {
        self.show_file_browser
    }

    /// The status line.
    pub fn status_message(&self) -> (status: &str)
        ensures
            status@ == self@.status,
    {
        self.status_message.as_str()
    }

    /// The command line as typed so far.
    pub fn command_input(&self) -> (command: &str)
        ensures
            command@ == self@.command,
    {
        self.command_input.as_str()
    }

    /// Puts `status` on the status line.
    pub fn set_status(&mut self, status: &str)
        ensures
            final(self)@ == (SessionView { status: status@, ..old(self)@ }),
    {
        self.status_message = String::from_str(status);
    }

    /// Whether the tabs and the file tree are in order, as is the case
    /// after every call.
    pub fn is_valid(&self) -> (valid: bool)
        ensures
            valid == self@.wf(),
    {
        self.tab_manager.is_valid() && match &self.file_browser {
            Some(b) => b.is_valid(),
            None => true,
        }
    }

    /// Whether the machine has room for one more command.
    pub fn has_room(&self) -> (room: bool)
        requires
            self@.wf(),
        ensures
            room == self@.has_room(),
    {
        let tabs = self.tab_manager.tabs();
        let buffer = &tabs[self.tab_manager.active_index()].buffer;
        self.tab_manager.next_id() < usize::MAX && buffer.len() < usize::MAX
            && buffer.cursor().column < usize::MAX
    }

    /// Whether the file tree, if there is one, can take a toggle.
    pub fn can_toggle(&self) -> (can: bool)
        ensures
            can == (self@.browser matches Some(b) ==> depths_below(b.root, usize::MAX as int)),
    {
        match &self.file_browser {
            Some(b) => b.can_toggle(),
            None => true,
        }
    }

    /// Moves the viewport of the active document, of `viewport_height`
    /// rows, so that it shows the cursor.
    pub fn scroll_editor(&mut self, viewport_height: usize)
        requires
            old(self)@.wf(),
        ensures
            final(self)@.wf(),
            edits(old(self)@, old(self)@.buffer().update_scroll(viewport_height), final(self)@),
    {
        self.tab_manager.active_buffer().update_scroll(viewport_height);
    }

    /// Moves the viewport of the file tree, of `viewport_height` rows, so
    /// that it shows the selected row.
    pub fn scroll_browser(&mut self, viewport_height: usize)
        requires
            old(self)@.wf(),
        ensures
            final(self)@.wf(),
            match old(self)@.browser {
                Some(b) => browses(old(self)@, b.update_scroll(viewport_height), final(self)@),
                None => final(self)@ == old(self)@,
            },
    {
        match &mut self.file_browser {
            Some(b) => {
                b.update_scroll(viewport_height);
            },
            None => {},
        }
    }

    /// Takes the key press `press`: does what it stands for in the
    /// current mode, and says what is left to do outside.
    pub fn handle_key(&mut self, press: KeyPress) -> (action: Action)
        requires
            old(self)@.wf(),
            old(self)@.has_room(),
        ensures
            final(self)@.wf(),
            applied(old(self)@, command_of(old(self)@.mode, press), final(self)@, action),
    {
        let cmd = Command::for_key(self.mode, press);
        self.apply(cmd)
    }

    /// Does what `cmd` asks for, and says what is left to do outside.
    pub fn apply(&mut self, cmd: Command) -> (action: Action)
        requires
            old(self)@.wf(),
            old(self)@.has_room(),
        ensures
            final(self)@.wf(),
            applied(old(self)@, cmd, final(self)@, action),
    {
        match cmd {
            Command::Quit => {
                self.should_quit = true;
                Action::Idle
            },
            Command::InsertMode => {
                self.mode = AppMode::Insert;
                self.status_message = String::from_str("-- INSERT --");
                Action::Idle
            },
            Command::CommandMode => {
                self.mode = AppMode::Command;
                self.command_input = String::new();
                Action::Idle
            },
            Command::NormalMode => {
                self.mode = AppMode::Normal;
                self.status_message = String::from_str("Normal mode");
                Action::Idle
            },
            Command::Cancel => {
                self.mode = AppMode::Normal;
                self.command_input = String::new();
                Action::Idle
            },
            Command::Run => {
                let words = split_words(self.command_input.as_str());
                self.command_input = String::new();
                self.mode = AppMode::Normal;
                self.run_words(&words)
            },
            Command::ToggleBrowser => {
                self.show_file_browser = !self.show_file_browser;
                Action::Idle
            },
            Command::Save => self.start_save(WriteReport::KeySave),
            Command::NewTab => {
                self.tab_manager.new_tab();
                self.status_message = String::from_str("New tab created");
                Action::Idle
            },
            Command::CloseTab => {
                self.tab_manager.close_current();
                Action::Idle
            },
            Command::NextTab => {
                self.tab_manager.next_tab();
                Action::Idle
            },
            Command::PrevTab => {
                self.tab_manager.prev_tab();
                Action::Idle
            },
            Command::NavUp => {
                if self.show_file_browser {
                    match &mut self.file_browser {
                        Some(b) => {
                            b.move_up();
                        },
                        None => {},
                    }
                } else {
                    self.tab_manager.active_buffer().move_cursor_up();
                }
                Action::Idle
            },
            Command::NavDown => {
                if self.show_file_browser {
                    match &mut self.file_browser {
                        Some(b) => {
                            b.move_down();
                        },
                        None => {},
                    }
                } else {
                    self.tab_manager.active_buffer().move_cursor_down();
                }
                Action::Idle
            },
            Command::CursorUp => {
                self.tab_manager.active_buffer().move_cursor_up();
                Action::Idle
            },
            Command::CursorDown => {
                self.tab_manager.active_buffer().move_cursor_down();
                Action::Idle
            },
            Command::CursorLeft => {
                self.tab_manager.active_buffer().move_cursor_left();
                Action::Idle
            },
            Command::CursorRight => {
                self.tab_manager.active_buffer().move_cursor_right();
                Action::Idle
            },
            Command::Activate => self.activate(),
            Command::Type(c) => {
                self.tab_manager.active_buffer().insert_char(c);
                Action::Idle
            },
            Command::Backspace => {
                self.tab_manager.active_buffer().backspace();
                Action::Idle
            },
            Command::Delete => {
                self.tab_manager.active_buffer().delete_char();
                Action::Idle
            },
            Command::CommandChar(c) => {
                string_push(&mut self.command_input, c);
                Action::Idle
            },
            Command::CommandErase => {
                string_pop(&mut self.command_input);
                Action::Idle
            },
            Command::Nothing => Action::Idle,
        }
    }

    /// Starts a save of the active document: hands out the write where
    /// the document has a path, and else counts it as saved on the spot.
    pub fn start_save(&mut self, report: WriteReport) -> (action: Action)
        requires
            old(self)@.wf(),
        ensures
            final(self)@.wf(),
            starts_save(old(self)@, report, final(self)@, action),
    {
        match self.tab_manager.save_current() {
            Some(write) => Action::Write { place: self.tab_manager.active_index(), write, report },
            None => {
                self.report_saved(report);
                Action::Idle
            },
        }
    }

    /// Puts the message for a write that went through on the status line.
    fn report_saved(&mut self, report: WriteReport)
        ensures
            final(self)@ == (SessionView {
                status: saved_message(report, old(self)@.status),
                ..old(self)@
            }),
    {
        match report {
            WriteReport::KeySave => {
                self.status_message = String::from_str("File saved");
            },
            WriteReport::CommandSave => {
                self.status_message = String::from_str("Saved");
            },
            WriteReport::Silent => {},
        }
    }

    /// Runs the command line whose words are `words`.
    pub fn run_words(&mut self, words: &Vec<String>) -> (action: Action)
        requires
            old(self)@.wf(),
        ensures
            final(self)@.wf(),
            ran_words(old(self)@, words@.map_values(|w: String| w@), final(self)@, action),
    {
        let ghost texts = words@.map_values(|w: String| w@);
        if words.len() == 0 {
            return Action::Idle;
        }
        let first = words[0].as_str();
        if str_eq(first, "q") || str_eq(first, "quit") {
            self.should_quit = true;
            Action::Idle
        } else if str_eq(first, "w") || str_eq(first, "write") {
            self.start_save(WriteReport::CommandSave)
        } else if str_eq(first, "wq") {
            self.should_quit = true;
            match self.tab_manager.save_current() {
                Some(write) => Action::Write {
                    place: self.tab_manager.active_index(),
                    write,
                    report: WriteReport::Silent,
                },
                None => Action::Idle,
            }
        } else if str_eq(first, "theme") {
            if words.len() > 1 {
                match MaterialTheme::from_name(words[1].as_str()) {
                    Some(theme) => {
                        self.theme = theme;
                        Action::ThemeChanged { theme }
                    },
                    None => {
                        self.status_message = String::from_str("Invalid theme name");
                        Action::Idle
                    },
                }
            } else {
                self.status_message = String::from_str(
                    "Available: ocean, palenight, darker, lighter, deepocean",
                );
                Action::Idle
            }
        } else {
            self.status_message = String::from_str("Unknown command: ").concat(first);
            Action::Idle
        }
    }

    /// Acts on the selected row of the file tree while the tree is shown.
    pub fn activate(&mut self) -> (action: Action)
        requires
            old(self)@.wf(),
            old(self)@.tabs.next_id < usize::MAX,
        ensures
            final(self)@.wf(),
            activated(old(self)@, final(self)@, action),
    {
        if !self.show_file_browser {
            return Action::Idle;
        }
        let (path, name, is_dir) = match &self.file_browser {
            Some(b) => match b.selected_entry() {
                Some(e) => (e.path.clone(), e.name.clone(), e.is_dir),
                None => {
                    return Action::Idle;
                },
            },
            None => {
                return Action::Idle;
            },
        };
        if is_dir {
            return Action::ListFolder { path };
        }
        match self.tab_manager.find_open(path.as_str()) {
            Some(_) => {
                self.tab_manager.open_file(path.as_str(), "");
                self.status_message = String::from_str("Opened: ").concat(name.as_str());
                self.show_file_browser = false;
                proof {
                    reveal_strlit("");
                }
                Action::Idle
            },
            None => Action::ReadFile { path, name },
        }
    }

    /// Takes the listing of the folder that `ListFolder` asked for, empty
    /// where the folder could not be read: toggles the entry at the path
    /// of the selected row on it.
    pub fn folder_listed(&mut self, listing: Vec<(String, bool)>)
        requires
            old(self)@.wf(),
            old(self)@.browser matches Some(b) ==> depths_below(b.root, usize::MAX as int),
        ensures
            final(self)@.wf(),
            match old(self)@.browser {
                Some(b) => {
                    &&& final(self)@.browser matches Some(n)
                    &&& toggles_selected(b, listing@, n)
                    &&& browses(old(self)@, n, final(self)@)
                },
                None => final(self)@ == old(self)@,
            },
    {
        match &mut self.file_browser {
            Some(b) => {
                b.toggle_selected(listing);
            },
            None => {},
        }
    }

    /// Takes the outcome of the read that `ReadFile` asked for: the text
    /// of the file at `path`, or the message of the error. With the text,
    /// the file is opened in a tab, the status line says so under `name`
    /// and the file tree is hidden; with an error the status line shows
    /// it.
    pub fn file_read(&mut self, path: &str, name: &str, outcome: Result<&str, &str>)
        requires
            old(self)@.wf(),
            old(self)@.tabs.next_id < usize::MAX,
        ensures
            final(self)@.wf(),
            match outcome {
                Ok(content) => opens_file(old(self)@.tabs, path@, content@, final(self)@.tabs)
                    && final(self)@ == (SessionView {
                    tabs: final(self)@.tabs,
                    status: "Opened: "@ + name@,
                    show_file_browser: false,
                    ..old(self)@
                }),
                Err(error) => final(self)@ == (SessionView {
                    status: "Error opening file: "@ + error@,
                    ..old(self)@
                }),
            },
    {
        match outcome {
            Ok(content) => {
                self.tab_manager.open_file(path, content);
                self.status_message = String::from_str("Opened: ").concat(name);
                self.show_file_browser = false;
            },
            Err(error) => {
                self.status_message = String::from_str("Error opening file: ").concat(error);
            },
        }
    }

    /// Takes the outcome of the write that `Write` asked for, for the tab
    /// at `place` and to `path`: `None` where it went through, else the
    /// message of the error. A write that went through leaves the
    /// document saved under `path`; either way the status line says what
    /// happened, as `report` has it.
    pub fn write_finished(
        &mut self,
        place: usize,
        path: &str,
        report: WriteReport,
        error: Option<&str>,
    )
        requires
            old(self)@.wf(),
        ensures
            final(self)@.wf(),
            match error {
                None => marks_saved(old(self)@.tabs, place, path@, final(self)@.tabs)
                    && final(self)@ == (SessionView {
                    tabs: final(self)@.tabs,
                    status: saved_message(report, old(self)@.status),
                    ..old(self)@
                }),
                Some(e) => final(self)@ == (SessionView {
                    status: failed_message(report, e@, old(self)@.status),
                    ..old(self)@
                }),
            },
    {
        match error {
            None => {
                self.tab_manager.saved(place, path);
                self.report_saved(report);
            },
            Some(e) => {
                match report {
                    WriteReport::KeySave => {
                        self.status_message = String::from_str("Error saving: ").concat(e);
                    },
                    WriteReport::CommandSave => {
                        self.status_message = String::from_str("Error: ").concat(e);
                    },
                    WriteReport::Silent => {},
                }
            },
        }
    }
}

} // verus!
