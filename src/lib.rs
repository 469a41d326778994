//! Native shell logic of a small notepad editor: the write-once path taken
//! from the command line, the commands the web UI may call, the menu tree,
//! the menu-event bridge and the lifecycle of the main window.
pub mod command;
pub mod host;
pub mod menu;
pub mod text_path;
