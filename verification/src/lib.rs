//! A keyboard-driven two-pane task list: the selection lists, the line editor,
//! the session state machine, the screen layout and the saved-file format.

pub mod editor;
pub mod list;
pub mod number;
pub mod screen;
pub mod session;
pub mod status;
pub mod store;
pub mod text;
pub mod ui;
