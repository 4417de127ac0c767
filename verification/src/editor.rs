use crate::action::{Action, Mode};
use crate::event::{Event, KeyCode};
use crate::laws::{lemma_replay_next, lemma_replay_stops_at_quit};
use crate::model;
use crate::model::{State, Trace};
use crate::screen::{Command, STATUS_TEXT};
use vstd::prelude::*;

verus! {

/// The editor: the terminal dimensions captured at start-up, the cursor and
/// the mode. It owns no terminal; it says what to do with one.
#[derive(Debug, PartialEq, Eq)]
pub struct Editor {
    size: (u16, u16),
    cx: u16,
    cy: u16,
    mode: Mode,
}

/// What the caller has to do after an action or an event was applied.
#[derive(Debug, PartialEq, Eq)]
pub struct Outcome {
    /// The session is over: the action was `Quit`.
    pub quit: bool,
    /// Commands to perform at once, ahead of the next frame.
    pub commands: Vec<Command>,
}

/// What a session over recorded events came to.
#[derive(Debug, PartialEq, Eq)]
pub struct Replay {
    /// Every command of the session, in the order in which it is due.
    pub output: Vec<Command>,
    /// How many of the events were taken.
    pub consumed: usize,
    /// The session ended by quitting, not by running out of events.
    pub quit: bool,
}

impl View for Editor {
    type V = State;

    closed spec fn view(&self) -> State {
        State {
            cols: self.size.0 as int,
            rows: self.size.1 as int,
            cx: self.cx as int,
            cy: self.cy as int,
            mode: self.mode,
        }
    }
}

impl Editor {
    /// An editor for a terminal of `size` (columns, rows): cursor at the
    /// origin, Normal mode.
    pub fn new(size: (u16, u16)) -> (editor: Editor)
        ensures
            editor@ == State::initial(size.0 as int, size.1 as int),
    {
        Editor { size, cx: 0, cy: 0, mode: Mode::Normal }
    }

    /// The numbers of an editor are machine integers, so its state is always
    /// in range.
    pub proof fn lemma_in_range(&self)
        ensures
            self@.in_range(),
    {
    }

    /// The terminal dimensions captured at start-up, as (columns, rows).
    pub fn size(&self) -> (size: (u16, u16))
        ensures
            size.0 == self@.cols,
            size.1 == self@.rows,
    {
        self.size
    }

    /// The cursor's column.
    pub fn cx(&self) -> (cx: u16)
        ensures
            cx == self@.cx,
    {
        self.cx
    }

    /// The cursor's row.
    pub fn cy(&self) -> (cy: u16)
        ensures
            cy == self@.cy,
    {
        self.cy
    }

    /// The current mode.
    pub fn mode(&self) -> (mode: Mode)
        ensures
            mode == self@.mode,
    {
        self.mode
    }

    /// Whether a frame can be drawn: the status indicator needs a
    /// second-to-last row.
    pub fn can_draw(&self) -> (ok: bool)
        ensures
            ok == self@.has_status_row(),
    {
        self.size.1 >= 2
    }

    /// Whether `action` can be applied without a coordinate leaving its 16
    /// bits.
    pub fn can_apply(&self, action: Action) -> (ok: bool)
        ensures
            ok == model::apply(self@, action).in_range(),
    {
        match action {
            Action::MoveDown | Action::NewLine => self.cy < u16::MAX,
            Action::MoveRight | Action::AddChar(_) => self.cx < u16::MAX,
            _ => true,
        }
    }

    /// Whether `ev` can be taken without a coordinate leaving its 16 bits.
    pub fn can_step(&self, ev: Event) -> (ok: bool)
        ensures
            ok == model::step(self@, ev).in_range(),
    {
        match self.handle_event(ev) {
            Some(action) => self.can_apply(action),
            None => true,
        }
    }

    /// Applies one action. The cursor moves without an upper limit, so the
    /// caller has to rule out the one thing a 16-bit coordinate cannot do:
    /// grow past `u16::MAX`.
    pub fn apply(&mut self, action: Action) -> (out: Outcome)
        requires
            model::apply(old(self)@, action).in_range(),
        ensures
            final(self)@ == model::apply(old(self)@, action),
            out.commands@ == model::echo(old(self)@, action),
            out.quit == model::quits(action),
    {
        let mut commands: Vec<Command> = Vec::new();
        let mut quit = false;
        match action {
            Action::Quit => {
                quit = true;
            },
            Action::MoveUp => {
                self.cy = self.cy.saturating_sub(1);
            },
            Action::MoveDown => {
                self.cy += 1;
            },
            Action::MoveLeft => {
                self.cx = self.cx.saturating_sub(1);
            },
            Action::MoveRight => {
                self.cx += 1;
            },
            Action::EnterMode(new_mode) => {
                self.mode = new_mode;
            },
            Action::AddChar(c) => {
                commands.push(Command::MoveTo(self.cx, self.cy));
                commands.push(Command::PrintChar(c));
                self.cx += 1;
            },
            Action::NewLine => {
                self.cx = 0;
                self.cy += 1;
            },
        }
        Outcome { quit, commands }
    }

    /// Translates an event with the key table of Normal mode.
    pub fn handle_normal_event(&self, ev: Event) -> (action: Option<Action>)
        ensures
            action == model::normal_action(ev),
    {
        match ev {
            Event::Key(code) => match code {
                KeyCode::Char('q') => Some(Action::Quit),
                KeyCode::Up | KeyCode::Char('k') => Some(Action::MoveUp),
                KeyCode::Down | KeyCode::Char('j') => Some(Action::MoveDown),
                KeyCode::Left | KeyCode::Char('h') => Some(Action::MoveLeft),
                KeyCode::Right | KeyCode::Char('l') => Some(Action::MoveRight),
                KeyCode::Char('i') => Some(Action::EnterMode(Mode::Insert)),
                _ => None,
            },
            _ => None,
        }
    }

    /// Translates an event with the key table of Insert mode. Only a
    /// printable character becomes text; a control character is ignored.
    pub fn handle_insert_event(&self, ev: Event) -> (action: Option<Action>)
        ensures
            action == model::insert_action(ev),
    {
        match ev {
            Event::Key(code) => match code {
                KeyCode::Esc => Some(Action::EnterMode(Mode::Normal)),
                KeyCode::Enter => Some(Action::NewLine),
                KeyCode::Char(c) => {
                    let code_point: u32 = c as u32;
                    if code_point <= 0x1F || (0x7F <= code_point && code_point <= 0x9F) {
                        None
                    } else {
                        Some(Action::AddChar(c))
                    }
                },
                _ => None,
            },
            _ => None,
        }
    }

    /// Translates an event with the key table of the current mode. The
    /// editor itself is left as it is.
    pub fn handle_event(&self, ev: Event) -> (action: Option<Action>)
        ensures
            action == model::translate(self@.mode, ev),
    {
        match self.mode {
            Mode::Normal => self.handle_normal_event(ev),
            Mode::Insert => self.handle_insert_event(ev),
        }
    }

    /// Takes one event: translates it and applies the action, if there is
    /// one. An event without an action changes nothing and asks for nothing.
    pub fn step(&mut self, ev: Event) -> (out: Outcome)
        requires
            model::step(old(self)@, ev).in_range(),
        ensures
            final(self)@ == model::step(old(self)@, ev),
            out.commands@ == model::step_echo(old(self)@, ev),
            out.quit == model::step_quits(old(self)@, ev),
    {
        match self.handle_event(ev) {
            Some(action) => self.apply(action),
            None => Outcome { quit: false, commands: Vec::new() },
        }
    }

    /// The commands that draw the status indicator.
    pub fn draw_status_line(&self) -> (commands: Vec<Command>)
        requires
            self@.has_status_row(),
        ensures
            commands@ == model::status_line(self@),
    {
        let mut commands: Vec<Command> = Vec::new();
        commands.push(Command::MoveTo(0, self.size.1 - 2));
        commands.push(Command::PrintStr(STATUS_TEXT));
        commands
    }

    /// The commands of one frame.
    pub fn draw(&self) -> (commands: Vec<Command>)
        requires
            self@.has_status_row(),
        ensures
            commands@ == model::frame(self@),
    {
        let mut commands = self.draw_status_line();
        commands.push(Command::MoveTo(self.cx, self.cy));
        commands.push(Command::Flush);
        commands
    }

    /// Whether the loop can be run over `events`: a frame can be drawn, and
    /// no event that the session gets to takes a coordinate out of its 16
    /// bits. Events behind the one that quits do not count.
    pub fn can_run(&self, events: &[Event]) -> (ok: bool)
        ensures
            ok == (self@.has_status_row() && model::replay_in_range(self@, events@)),
    {
        if !self.can_draw() {
            return false;
        }
        let mut ahead = Editor { size: self.size, cx: self.cx, cy: self.cy, mode: self.mode };
        let mut taken: usize = 0;
        let mut quit = false;
        while taken < events.len() && !quit
            invariant
                taken <= events.len(),
                model::replay(self@, events@.take(taken as int)).state == ahead@,
                model::replay(self@, events@.take(taken as int)).quit == quit,
                forall|k: int|
                    0 <= k <= taken ==> (#[trigger] model::replay(
                        self@,
                        events@.take(k),
                    )).state.in_range(),
            decreases events.len() - taken,
        {
            proof {
                lemma_replay_next(self@, events@, taken as int);
            }
            if !ahead.can_step(events[taken]) {
                assert(!model::replay(self@, events@.take(taken + 1)).state.in_range());
                return false;
            }
            let out = ahead.step(events[taken]);
            quit = out.quit;
            taken += 1;
        }
        proof {
            assert forall|k: int| 0 <= k <= events@.len() implies (#[trigger] model::replay(
                self@,
                events@.take(k),
            )).state.in_range() by {
                if k > taken {
                    assert(events@.take(k).take(taken as int) =~= events@.take(taken as int));
                    lemma_replay_stops_at_quit(self@, events@.take(k), taken as int);
                }
            }
        }
        true
    }

    /// Runs the loop over recorded events: draw, take one event, apply it,
    /// until an event quits or none is left. With none left the editor
    /// draws once more, as it would before waiting for the next one.
    /// `can_run` tests what this asks of its caller.
    pub fn run(&mut self, events: &[Event]) -> (report: Replay)
        requires
            old(self)@.has_status_row(),
            model::replay_in_range(old(self)@, events@),
        ensures
            final(self)@ == model::run(old(self)@, events@).state,
            report.output@ == model::run(old(self)@, events@).output,
            report.consumed == model::run(old(self)@, events@).consumed,
            report.quit == model::run(old(self)@, events@).quit,
    {
        let ghost start = self@;
        let mut output: Vec<Command> = Vec::new();
        let mut consumed: usize = 0;
        let mut quit = false;
        while consumed < events.len() && !quit
            invariant
                consumed <= events.len(),
                self@.has_status_row(),
                model::replay_in_range(start, events@),
                model::replay(start, events@.take(consumed as int)) == (Trace {
                    state: self@,
                    output: output@,
                    consumed: consumed as nat,
                    quit,
                }),
            decreases events.len() - consumed,
        {
            proof {
                lemma_replay_next(start, events@, consumed as int);
                assert(model::replay(start, events@.take(consumed + 1)).state.in_range());
            }
            let mut shown = self.draw();
            output.append(&mut shown);
            let out = self.step(events[consumed]);
            let mut echoed = out.commands;
            output.append(&mut echoed);
            quit = out.quit;
            consumed += 1;
        }
        if quit {
            proof {
                lemma_replay_stops_at_quit(start, events@, consumed as int);
            }
        } else {
            assert(events@.take(consumed as int) =~= events@);
            let mut shown = self.draw();
            output.append(&mut shown);
        }
        Replay { output, consumed, quit }
    }
}

} // verus!
