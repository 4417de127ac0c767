use vstd::prelude::*;

verus! {

/// Editing context. It alone selects the key table that translates an event.
#[derive(Clone, Copy, Debug, PartialEq, Eq, Structural)]
pub enum Mode {
    Normal,
    Insert,
}

/// An editor-level command. It carries everything needed to update the editor,
/// so the event that produced it is never looked at again.
#[derive(Clone, Copy, Debug, PartialEq, Eq, Structural)]
pub enum Action {
    Quit,
    MoveUp,
    MoveDown,
    MoveLeft,
    MoveRight,
    EnterMode(Mode),
    AddChar(char),
    NewLine,
}

} // verus!
