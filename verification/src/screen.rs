use vstd::prelude::*;

verus! {

/// Text of the status indicator.
pub const STATUS_TEXT: &'static str = "Status line";

/// One instruction for the terminal. The editor only emits them; the caller
/// performs them in order.
#[derive(Clone, Copy, Debug, PartialEq, Eq)]
pub enum Command {
    /// Place the visible cursor at (column, row), counted from 0.
    MoveTo(u16, u16),
    /// Write a fixed text at the cursor.
    PrintStr(&'static str),
    /// Write one character at the cursor.
    PrintChar(char),
    /// Make everything queued so far visible.
    Flush,
}

} // verus!
