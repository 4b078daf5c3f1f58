//! A note-taking tool's logic: a store of note lines kept as one text file,
//! the dispatch of command-line arguments, and the step that answers one
//! invocation. Reading and writing the file is left to the caller.
pub mod command;
pub mod laws;
pub mod session;
pub mod store;
