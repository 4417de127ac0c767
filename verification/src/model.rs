//! The editor as a mathematical state machine.
//!
//! Everything here is ghost code over unbounded integers. The executable
//! editor states its contracts in these terms, and the theorems about the
//! editor are proved about these functions.

use crate::action::{Action, Mode};
use crate::event::{Event, KeyCode};
use crate::screen::{Command, STATUS_TEXT};
use vstd::prelude::*;

verus! {

/// What an editor is made of: the terminal dimensions captured at start-up,
/// the cursor and the mode. The cursor has no upper limit here.
pub struct State {
    pub cols: int,
    pub rows: int,
    pub cx: int,
    pub cy: int,
    pub mode: Mode,
}

impl State {
    /// The state of a fresh editor on a terminal of the given dimensions.
    pub open spec fn initial(cols: int, rows: int) -> State {
        State { cols, rows, cx: 0, cy: 0, mode: Mode::Normal }
    }

    /// Neither coordinate is negative.
    pub open spec fn cursor_on_canvas(self) -> bool {
        0 <= self.cx && 0 <= self.cy
    }

    /// Every number of the state fits the 16 bits that a terminal coordinate has.
    pub open spec fn in_range(self) -> bool {
        &&& 0 <= self.cols <= u16::MAX
        &&& 0 <= self.rows <= u16::MAX
        &&& 0 <= self.cx <= u16::MAX
        &&& 0 <= self.cy <= u16::MAX
    }

    /// The terminal is tall enough to have a second-to-last row.
    pub open spec fn has_status_row(self) -> bool {
        self.rows >= 2
    }
}

/// One less, but never below zero.
pub open spec fn step_back(n: int) -> int {
    if n >= 1 {
        n - 1
    } else {
        0
    }
}

/// The key of a keyboard event; no other event has one.
pub open spec fn key_of(ev: Event) -> Option<KeyCode> {
    match ev {
        Event::Key(code) => Some(code),
        _ => None,
    }
}

/// The key table of Normal mode.
pub open spec fn normal_binding(code: KeyCode) -> Option<Action> {
    if code == KeyCode::Char('q') {
        Some(Action::Quit)
    } else if code == KeyCode::Up || code == KeyCode::Char('k') {
        Some(Action::MoveUp)
    } else if code == KeyCode::Down || code == KeyCode::Char('j') {
        Some(Action::MoveDown)
    } else if code == KeyCode::Left || code == KeyCode::Char('h') {
        Some(Action::MoveLeft)
    } else if code == KeyCode::Right || code == KeyCode::Char('l') {
        Some(Action::MoveRight)
    } else if code == KeyCode::Char('i') {
        Some(Action::EnterMode(Mode::Insert))
    } else {
        None
    }
}

/// A character that Insert mode takes as text: any but a control character.
/// The control characters are U+0000 to U+001F and U+007F to U+009F; a space
/// and every letter, accented or not, are text.
pub open spec fn is_printable(c: char) -> bool {
    !(c as u32 <= 0x1F) && !(0x7F <= c as u32 <= 0x9F)
}

/// The key table of Insert mode. A character key that carries a control
/// character has no binding.
pub open spec fn insert_binding(code: KeyCode) -> Option<Action> {
    match code {
        KeyCode::Esc => Some(Action::EnterMode(Mode::Normal)),
        KeyCode::Enter => Some(Action::NewLine),
        KeyCode::Char(c) => if is_printable(c) {
            Some(Action::AddChar(c))
        } else {
            None
        },
        _ => None,
    }
}

/// The action that an event stands for in Normal mode, if any.
pub open spec fn normal_action(ev: Event) -> Option<Action> {
    match key_of(ev) {
        Some(code) => normal_binding(code),
        None => None,
    }
}

/// The action that an event stands for in Insert mode, if any.
pub open spec fn insert_action(ev: Event) -> Option<Action> {
    match key_of(ev) {
        Some(code) => insert_binding(code),
        None => None,
    }
}

/// The action that an event stands for in the given mode, if any.
pub open spec fn translate(mode: Mode, ev: Event) -> Option<Action> {
    match mode {
        Mode::Normal => normal_action(ev),
        Mode::Insert => insert_action(ev),
    }
}

/// The state that an action leaves behind.
pub open spec fn apply(s: State, a: Action) -> State {
    match a {
        Action::Quit => s,
        Action::MoveUp => State { cy: step_back(s.cy), ..s },
        Action::MoveDown => State { cy: s.cy + 1, ..s },
        Action::MoveLeft => State { cx: step_back(s.cx), ..s },
        Action::MoveRight => State { cx: s.cx + 1, ..s },
        Action::EnterMode(m) => State { mode: m, ..s },
        Action::AddChar(_) => State { cx: s.cx + 1, ..s },
        Action::NewLine => State { cx: 0, cy: s.cy + 1, ..s },
    }
}

/// The state that a sequence of actions leaves behind, applied in order.
pub open spec fn apply_all(s: State, actions: Seq<Action>) -> State
    decreases actions.len(),
{
    if actions.len() == 0 {
        s
    } else {
        apply(apply_all(s, actions.drop_last()), actions.last())
    }
}

/// What an action writes to the screen at once, ahead of the next frame:
/// an inserted character goes to the cell under the cursor.
pub open spec fn echo(s: State, a: Action) -> Seq<Command> {
    match a {
        Action::AddChar(c) => seq![Command::MoveTo(s.cx as u16, s.cy as u16), Command::PrintChar(c)],
        _ => Seq::empty(),
    }
}

/// Whether an action ends the session.
pub open spec fn quits(a: Action) -> bool {
    a == Action::Quit
}

/// The status indicator: its text, at column 0 of the second-to-last row.
pub open spec fn status_line(s: State) -> Seq<Command> {
    seq![Command::MoveTo(0, (s.rows - 2) as u16), Command::PrintStr(STATUS_TEXT)]
}

/// One frame: the status indicator, the visible cursor put where the editor's
/// cursor is, and a single flush at the very end.
pub open spec fn frame(s: State) -> Seq<Command> {
    status_line(s) + seq![Command::MoveTo(s.cx as u16, s.cy as u16), Command::Flush]
}

/// The state after one event: the event's action applied, or nothing changed
/// where the event has no action.
pub open spec fn step(s: State, ev: Event) -> State {
    match translate(s.mode, ev) {
        Some(a) => apply(s, a),
        None => s,
    }
}

/// What one event writes to the screen at once.
pub open spec fn step_echo(s: State, ev: Event) -> Seq<Command> {
    match translate(s.mode, ev) {
        Some(a) => echo(s, a),
        None => Seq::empty(),
    }
}

/// Whether one event ends the session.
pub open spec fn step_quits(s: State, ev: Event) -> bool {
    match translate(s.mode, ev) {
        Some(a) => quits(a),
        None => false,
    }
}

/// A session replayed over recorded events: where it ended, everything it
/// asked the terminal to do, how many events it took, and whether it ended
/// by quitting.
pub struct Trace {
    pub state: State,
    pub output: Seq<Command>,
    pub consumed: nat,
    pub quit: bool,
}

/// The session over `events`, up to the point where it waits for the next
/// one. Each event costs one frame of the state it meets, followed by what
/// the event writes at once. The first event that quits is the last one
/// taken; the events behind it are never looked at.
pub open spec fn replay(s: State, events: Seq<Event>) -> Trace
    decreases events.len(),
{
    if events.len() == 0 {
        Trace { state: s, output: Seq::empty(), consumed: 0, quit: false }
    } else {
        let before = replay(s, events.drop_last());
        if before.quit {
            before
        } else {
            Trace {
                state: step(before.state, events.last()),
                output: before.output + frame(before.state) + step_echo(
                    before.state,
                    events.last(),
                ),
                consumed: before.consumed + 1,
                quit: step_quits(before.state, events.last()),
            }
        }
    }
}

/// The whole session over `events`. A session that has not quit when the
/// events run out draws once more, as it does before every wait.
pub open spec fn run(s: State, events: Seq<Event>) -> Trace {
    let t = replay(s, events);
    if t.quit {
        t
    } else {
        Trace { output: t.output + frame(t.state), ..t }
    }
}

/// Along the whole session the cursor stays within 16 bits.
pub open spec fn replay_in_range(s: State, events: Seq<Event>) -> bool {
    forall|k: int| 0 <= k <= events.len() ==> (#[trigger] replay(s, events.take(k))).state.in_range()
}

} // verus!
