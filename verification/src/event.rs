use vstd::prelude::*;

verus! {

/// The key of a keyboard event, as far as the key tables tell keys apart.
/// Every key without a variant of its own is `Other`.
#[derive(Clone, Copy, Debug, PartialEq, Eq, Structural)]
pub enum KeyCode {
    Char(char),
    Up,
    Down,
    Left,
    Right,
    Enter,
    Esc,
    Other,
}

/// One input event. Only `Key` ever stands for an action.
#[derive(Clone, Copy, Debug, PartialEq, Eq, Structural)]
pub enum Event {
    Key(KeyCode),
    Resize,
    FocusGained,
    FocusLost,
    Mouse,
    Paste,
}

} // verus!
