//! Editing core of a terminal code editor: a text buffer with one cursor and
//! one scrolling viewport, the tabs and the file tree around it, and the
//! session that turns key presses into changes of all of these.

pub mod editor;
pub mod edits;
pub mod filebrowser;
pub mod git;
pub mod icons;
pub mod keys;
pub mod laws;
pub mod lines;
pub mod model;
pub mod order;
pub mod paths;
pub mod project;
pub mod session;
pub mod store;
pub mod strs;
pub mod tabs;
pub mod theme;
