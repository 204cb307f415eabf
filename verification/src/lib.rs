//! Core of a markdown viewer: a document session holding the text buffer
//! shown in the editor and preview panes, and the loader that turns the
//! bytes of a file into a session update.
pub mod encoding;
pub mod loader;
pub mod session;
