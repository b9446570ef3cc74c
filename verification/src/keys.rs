//! Which command a key press stands for in each mode.

use vstd::prelude::*;

verus! {

/// The three modes of the editor.
#[derive(Debug, Clone, Copy, PartialEq, Eq)]
pub enum AppMode {
    Normal,
    Insert,
    Command,
}

/// The keys that the editor tells apart.
#[derive(Debug, Clone, Copy, PartialEq, Eq)]
pub enum Key {
    Char(char),
    Enter,
    Esc,
    Backspace,
    Delete,
    Up,
    Down,
    Left,
    Right,
    Tab,
    BackTab,
    Other,
}

/// A key together with whether Control was held.
#[derive(Debug, Clone, Copy, PartialEq, Eq)]
pub struct KeyPress {
    pub key: Key,
    pub ctrl: bool,
}

/// What a key press asks for.
#[derive(Debug, Clone, Copy, PartialEq, Eq)]
pub enum Command {
    /// Leave the editor.
    Quit,
    /// Go to insert mode.
    InsertMode,
    /// Go to command mode with an empty command line.
    CommandMode,
    /// Go back from insert mode to normal mode.
    NormalMode,
    /// Drop the command line and go back to normal mode.
    Cancel,
    /// Run the command line and go back to normal mode.
    Run,
    /// Show or hide the file tree.
    ToggleBrowser,
    /// Save the active document.
    Save,
    /// Open a new tab.
    NewTab,
    /// Close the active tab.
    CloseTab,
    /// Go to the next tab.
    NextTab,
    /// Go to the previous tab.
    PrevTab,
    /// Go up in the file tree while it is shown, else in the document.
    NavUp,
    /// Go down in the file tree while it is shown, else in the document.
    NavDown,
    /// Move the cursor up.
    CursorUp,
    /// Move the cursor down.
    CursorDown,
    /// Move the cursor left.
    CursorLeft,
    /// Move the cursor right.
    CursorRight,
    /// Open the selected file, or open or close the selected folder.
    Activate,
    /// Type a character into the document.
    Type(char),
    /// Delete the character left of the cursor.
    Backspace,
    /// Delete the character at the cursor.
    Delete,
    /// Type a character into the command line.
    CommandChar(char),
    /// Delete the last character of the command line.
    CommandErase,
    /// Nothing.
    Nothing,
}

/// The command that a key press stands for in normal mode.
pub open spec fn normal_command(press: KeyPress) -> Command {
    match press.key {
        Key::Char(c) => if c == 'q' && !press.ctrl || c == 'c' && press.ctrl {
            Command::Quit
        } else if c == 'i' {
            Command::InsertMode
        } else if c == ':' {
            Command::CommandMode
        } else if c == 'e' && press.ctrl {
            Command::ToggleBrowser
        } else if c == 's' && press.ctrl {
            Command::Save
        } else if c == 't' && press.ctrl {
            Command::NewTab
        } else if c == 'w' && press.ctrl {
            Command::CloseTab
        } else if c == 'k' {
            Command::NavUp
        } else if c == 'j' {
            Command::NavDown
        } else if c == 'h' {
            Command::CursorLeft
        } else if c == 'l' {
            Command::CursorRight
        } else {
            Command::Nothing
        },
        Key::Tab => if press.ctrl {
            Command::NextTab
        } else {
            Command::Nothing
        },
        Key::BackTab => Command::PrevTab,
        Key::Up => Command::NavUp,
        Key::Down => Command::NavDown,
        Key::Left => Command::CursorLeft,
        Key::Right => Command::CursorRight,
        Key::Enter => Command::Activate,
        _ => Command::Nothing,
    }
}

/// The command that a key press stands for in insert mode, where Control
/// makes no difference.
pub open spec fn insert_command(press: KeyPress) -> Command {
    match press.key {
        Key::Esc => Command::NormalMode,
        Key::Char(c) => Command::Type(c),
        Key::Enter => Command::Type('\n'),
        Key::Backspace => Command::Backspace,
        Key::Delete => Command::Delete,
        Key::Up => Command::CursorUp,
        Key::Down => Command::CursorDown,
        Key::Left => Command::CursorLeft,
        Key::Right => Command::CursorRight,
        _ => Command::Nothing,
    }
}

/// The command that a key press stands for in command mode, where
/// Control makes no difference.
pub open spec fn command_line_command(press: KeyPress) -> Command {
    match press.key {
        Key::Esc => Command::Cancel,
        Key::Enter => Command::Run,
        Key::Char(c) => Command::CommandChar(c),
        Key::Backspace => Command::CommandErase,
        _ => Command::Nothing,
    }
}

/// The command that a key press stands for in `mode`.
pub open spec fn command_of(mode: AppMode, press: KeyPress) -> Command {
    match mode {
        AppMode::Normal => normal_command(press),
        AppMode::Insert => insert_command(press),
        AppMode::Command => command_line_command(press),
    }
}

impl Command {
    /// The command that `press` stands for in `mode`.
    pub fn for_key(mode: AppMode, press: KeyPress) -> (cmd: Command)
        ensures
            cmd == command_of(mode, press),
    {
        match mode {
            AppMode::Normal => Self::in_normal_mode(press),
            AppMode::Insert => Self::in_insert_mode(press),
            AppMode::Command => Self::in_command_mode(press),
        }
    }

    /// The command that `press` stands for in normal mode.
    pub fn in_normal_mode(press: KeyPress) -> (cmd: Command)
        ensures
            cmd == normal_command(press),
    {
        let ctrl = press.ctrl;
        match press.key {
            Key::Char(c) => {
                if c == 'q' {
                    if ctrl {
                        Command::Nothing
                    } else {
                        Command::Quit
                    }
                } else if c == 'c' {
                    if ctrl {
                        Command::Quit
                    } else {
                        Command::Nothing
                    }
                } else if c == 'i' {
                    Command::InsertMode
                } else if c == ':' {
                    Command::CommandMode
                } else if c == 'k' {
                    Command::NavUp
                } else if c == 'j' {
                    Command::NavDown
                } else if c == 'h' {
                    Command::CursorLeft
                } else if c == 'l' {
                    Command::CursorRight
                } else if !ctrl {
                    Command::Nothing
                } else if c == 'e' {
                    Command::ToggleBrowser
                } else if c == 's' {
                    Command::Save
                } else if c == 't' {
                    Command::NewTab
                } else if c == 'w' {
                    Command::CloseTab
                } else {
                    Command::Nothing
                }
            },
            Key::Tab => {
                if ctrl {
                    Command::NextTab
                } else {
                    Command::Nothing
                }
            },
            Key::BackTab => Command::PrevTab,
            Key::Up => Command::NavUp,
            Key::Down => Command::NavDown,
            Key::Left => Command::CursorLeft,
            Key::Right => Command::CursorRight,
            Key::Enter => Command::Activate,
            _ => Command::Nothing,
        }
    }

    /// The command that `press` stands for in insert mode.
    pub fn in_insert_mode(press: KeyPress) -> (cmd: Command)
        ensures
            cmd == insert_command(press),
    {
        match press.key {
            Key::Esc => Command::NormalMode,
            Key::Char(c) => Command::Type(c),
            Key::Enter => Command::Type('\n'),
            Key::Backspace => Command::Backspace,
            Key::Delete => Command::Delete,
            Key::Up => Command::CursorUp,
            Key::Down => Command::CursorDown,
            Key::Left => Command::CursorLeft,
            Key::Right => Command::CursorRight,
            _ => Command::Nothing,
        }
    }

    /// The command that `press` stands for in command mode.
    pub fn in_command_mode(press: KeyPress) -> (cmd: Command)
        ensures
            cmd == command_line_command(press),
    {
        match press.key {
            Key::Esc => Command::Cancel,
            Key::Enter => Command::Run,
            Key::Char(c) => Command::CommandChar(c),
            Key::Backspace => Command::CommandErase,
            _ => Command::Nothing,
        }
    }
}

} // verus!
