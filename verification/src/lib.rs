//! Core of a minimal modal terminal editor.
//!
//! The crate holds the part of the editor that decides: the two key tables,
//! the effect of every action on the cursor and the mode, and the commands
//! that make up a frame. Terminal input and output stay with the caller, which
//! hands events in and performs the commands that come back.

pub mod action;
pub mod event;
pub mod screen;
pub mod model;
pub mod editor;
pub mod laws;
