//! Theorems about the editor's state machine.

use crate::action::{Action, Mode};
use crate::event::{Event, KeyCode};
use crate::model::{
    apply_all, echo, frame, is_printable, replay, replay_in_range, run, step, step_echo,
    step_quits, translate, State, Trace,
};
use crate::screen::{Command, STATUS_TEXT};
use vstd::prelude::*;

verus! {

/// Taking one more event extends the session by exactly one turn of the
/// loop: a frame of the state reached so far, then the event's own effect.
/// A session that has already quit takes nothing more.
pub proof fn lemma_replay_next(s: State, events: Seq<Event>, k: int)
    requires
        0 <= k < events.len(),
    ensures
        replay(s, events.take(k)).quit ==> replay(s, events.take(k + 1)) == replay(
            s,
            events.take(k),
        ),
        !replay(s, events.take(k)).quit ==> replay(s, events.take(k + 1)) == (Trace {
            state: step(replay(s, events.take(k)).state, events[k]),
            output: replay(s, events.take(k)).output + frame(replay(s, events.take(k)).state)
                + step_echo(replay(s, events.take(k)).state, events[k]),
            consumed: replay(s, events.take(k)).consumed + 1,
            quit: step_quits(replay(s, events.take(k)).state, events[k]),
        }),
{
    assert(events.take(k + 1).drop_last() =~= events.take(k));
    assert(events.take(k + 1).last() == events[k]);
}

/// The loop ends only by quitting, and quitting ends it for good: whatever
/// follows the event that quit changes nothing.
pub proof fn lemma_replay_stops_at_quit(s: State, events: Seq<Event>, k: int)
    requires
        0 <= k <= events.len(),
        replay(s, events.take(k)).quit,
    ensures
        replay(s, events) == replay(s, events.take(k)),
    decreases events.len(),
{
    if k == events.len() {
        assert(events.take(k) =~= events);
    } else {
        assert(events.drop_last().take(k) =~= events.take(k));
        lemma_replay_stops_at_quit(s, events.drop_last(), k);
    }
}

/// No sequence of actions takes the cursor off the canvas: a coordinate that
/// is not negative never becomes negative, whatever is applied, moves
/// included.
pub proof fn lemma_cursor_never_negative(s: State, actions: Seq<Action>)
    requires
        s.cursor_on_canvas(),
    ensures
        apply_all(s, actions).cursor_on_canvas(),
    decreases actions.len(),
{
    if actions.len() > 0 {
        lemma_cursor_never_negative(s, actions.drop_last());
    }
}

/// Moving up and left saturates. From the origin, after every prefix of a
/// sequence made of `MoveUp` and `MoveLeft` alone the editor is exactly where
/// it started: both coordinates are still 0, and nothing else has changed.
pub proof fn lemma_up_and_left_stay_at_origin(s: State, actions: Seq<Action>, k: int)
    requires
        s.cx == 0,
        s.cy == 0,
        forall|i: int|
            0 <= i < actions.len() ==> actions[i] == Action::MoveUp || actions[i]
                == Action::MoveLeft,
        0 <= k <= actions.len(),
    ensures
        apply_all(s, actions.take(k)) == s,
    decreases k,
{
    if k > 0 {
        lemma_up_and_left_stay_at_origin(s, actions, k - 1);
        assert(actions.take(k).drop_last() =~= actions.take(k - 1));
        assert(actions.take(k).last() == actions[k - 1]);
    }
}

/// The keys that move up or left in Normal mode: the two arrows, `k` and `h`.
pub open spec fn moves_up_or_left(ev: Event) -> bool {
    ||| ev == Event::Key(KeyCode::Up)
    ||| ev == Event::Key(KeyCode::Char('k'))
    ||| ev == Event::Key(KeyCode::Left)
    ||| ev == Event::Key(KeyCode::Char('h'))
}

/// `n` copies of `block`, one after the other.
pub open spec fn repeated(block: Seq<Command>, n: nat) -> Seq<Command>
    decreases n,
{
    if n == 0 {
        Seq::empty()
    } else {
        repeated(block, (n - 1) as nat) + block
    }
}

/// A command that puts no text on the screen but the status indicator's.
pub open spec fn writes_no_text(c: Command) -> bool {
    !(c is PrintChar) && (c is PrintStr ==> c == Command::PrintStr(STATUS_TEXT))
}

/// Frames put no text on the screen but the status indicator's, however
/// many of them follow one another.
pub proof fn lemma_frames_write_no_text(s: State, n: nat)
    ensures
        forall|i: int|
            0 <= i < repeated(frame(s), n).len() ==> writes_no_text(
                #[trigger] repeated(frame(s), n)[i],
            ),
    decreases n,
{
    if n > 0 {
        lemma_frames_write_no_text(s, (n - 1) as nat);
        let before = repeated(frame(s), (n - 1) as nat);
        assert forall|i: int| 0 <= i < repeated(frame(s), n).len() implies writes_no_text(
            #[trigger] repeated(frame(s), n)[i],
        ) by {
            if i < before.len() {
                assert(repeated(frame(s), n)[i] == before[i]);
            } else {
                assert(repeated(frame(s), n)[i] == frame(s)[i - before.len()]);
            }
        }
    }
}

/// The same at the keyboard: in Normal mode at the origin, after every prefix
/// of a sequence of up and left keys the editor is exactly where it started
/// and has not quit, and all it has asked of the terminal is one frame for
/// each key, every one of them with the cursor at (0, 0).
pub proof fn lemma_up_and_left_keys_stay_at_origin(s: State, events: Seq<Event>, k: int)
    requires
        s.mode == Mode::Normal,
        s.cx == 0,
        s.cy == 0,
        forall|i: int| 0 <= i < events.len() ==> moves_up_or_left(#[trigger] events[i]),
        0 <= k <= events.len(),
    ensures
        replay(s, events.take(k)).state == s,
        !replay(s, events.take(k)).quit,
        replay(s, events.take(k)).consumed == k,
        replay(s, events.take(k)).output == repeated(frame(s), k as nat),
        frame(s)[2] == Command::MoveTo(0, 0),
    decreases k,
{
    if k > 0 {
        lemma_up_and_left_keys_stay_at_origin(s, events, k - 1);
        lemma_replay_next(s, events, k - 1);
        assert(moves_up_or_left(events[k - 1]));
        assert(replay(s, events.take(k)).output =~= repeated(frame(s), k as nat));
    }
}

/// A whole session of up and left keys closed by `q`, from the origin in
/// Normal mode: it takes every event, quits, and leaves the editor exactly
/// where it started. It draws one frame for each event, each with the cursor
/// at (0, 0), and nothing else. No coordinate leaves its range on the way.
pub proof fn lemma_run_of_up_and_left_keys_then_q(s: State, keys: Seq<Event>)
    requires
        s.mode == Mode::Normal,
        s.cx == 0,
        s.cy == 0,
        forall|i: int| 0 <= i < keys.len() ==> moves_up_or_left(#[trigger] keys[i]),
    ensures
        run(s, keys.push(Event::Key(KeyCode::Char('q')))).state == s,
        run(s, keys.push(Event::Key(KeyCode::Char('q')))).quit,
        run(s, keys.push(Event::Key(KeyCode::Char('q')))).consumed == keys.len() + 1,
        run(s, keys.push(Event::Key(KeyCode::Char('q')))).output == repeated(
            frame(s),
            keys.len() + 1,
        ),
        frame(s)[2] == Command::MoveTo(0, 0),
        s.in_range() ==> replay_in_range(s, keys.push(Event::Key(KeyCode::Char('q')))),
{
    let q = Event::Key(KeyCode::Char('q'));
    let all = keys.push(q);
    let n = keys.len() as int;
    lemma_up_and_left_keys_stay_at_origin(s, keys, n);
    assert(keys.take(n) =~= keys);
    assert(all.drop_last() =~= keys);
    assert(all.last() == q);
    assert(replay(s, all).output =~= repeated(frame(s), keys.len() + 1));
    if s.in_range() {
        assert forall|k: int| 0 <= k <= all.len() implies (#[trigger] replay(
            s,
            all.take(k),
        )).state.in_range() by {
            if k <= n {
                lemma_up_and_left_keys_stay_at_origin(s, keys, k);
                assert(all.take(k) =~= keys.take(k));
            } else {
                assert(all.take(k) =~= all);
            }
        }
    }
}

/// Escape has no binding in Normal mode: the event translates to no action,
/// so the editor stays as it is, writes nothing and does not quit.
pub proof fn lemma_escape_in_normal_does_nothing(s: State)
    requires
        s.mode == Mode::Normal,
    ensures
        translate(s.mode, Event::Key(KeyCode::Esc)) is None,
        step(s, Event::Key(KeyCode::Esc)) == s,
        step_echo(s, Event::Key(KeyCode::Esc)) == Seq::<Command>::empty(),
        !step_quits(s, Event::Key(KeyCode::Esc)),
{
}

/// From Normal mode, `i` enters Insert mode and Escape leaves it again, and
/// after the two the editor is exactly what it was. Neither key writes to the
/// screen or quits.
pub proof fn lemma_insert_escape_round_trip(s: State)
    requires
        s.mode == Mode::Normal,
    ensures
        step(s, Event::Key(KeyCode::Char('i'))) == (State { mode: Mode::Insert, ..s }),
        step(step(s, Event::Key(KeyCode::Char('i'))), Event::Key(KeyCode::Esc)) == s,
        replay(s, seq![Event::Key(KeyCode::Char('i')), Event::Key(KeyCode::Esc)]).state == s,
        !replay(s, seq![Event::Key(KeyCode::Char('i')), Event::Key(KeyCode::Esc)]).quit,
        replay(s, seq![Event::Key(KeyCode::Char('i')), Event::Key(KeyCode::Esc)]).consumed == 2,
{
    let i = Event::Key(KeyCode::Char('i'));
    let esc = Event::Key(KeyCode::Esc);
    let both = seq![i, esc];
    assert(both.drop_last() =~= seq![i]);
    assert(seq![i].drop_last() =~= Seq::<Event>::empty());
    assert(both.last() == esc);
    assert(seq![i].last() == i);
    assert(replay(s, Seq::<Event>::empty()).state == s);
    assert(replay(s, seq![i]).state == step(s, i));
}

/// The round trip as a whole session, closed by `q`: from Normal mode the
/// events `i`, Escape, `q` are all taken, the session quits, and the editor
/// is exactly what it was. All that is written is three frames of that one
/// state, so no text reaches the screen but the status indicator's. No
/// coordinate leaves its range on the way.
pub proof fn lemma_run_of_insert_escape_then_q(s: State)
    requires
        s.mode == Mode::Normal,
    ensures
        run(
            s,
            seq![
                Event::Key(KeyCode::Char('i')),
                Event::Key(KeyCode::Esc),
                Event::Key(KeyCode::Char('q')),
            ],
        ).state == s,
        run(
            s,
            seq![
                Event::Key(KeyCode::Char('i')),
                Event::Key(KeyCode::Esc),
                Event::Key(KeyCode::Char('q')),
            ],
        ).quit,
        run(
            s,
            seq![
                Event::Key(KeyCode::Char('i')),
                Event::Key(KeyCode::Esc),
                Event::Key(KeyCode::Char('q')),
            ],
        ).consumed == 3,
        run(
            s,
            seq![
                Event::Key(KeyCode::Char('i')),
                Event::Key(KeyCode::Esc),
                Event::Key(KeyCode::Char('q')),
            ],
        ).output == repeated(frame(s), 3),
        s.in_range() ==> replay_in_range(
            s,
            seq![
                Event::Key(KeyCode::Char('i')),
                Event::Key(KeyCode::Esc),
                Event::Key(KeyCode::Char('q')),
            ],
        ),
{
    let i = Event::Key(KeyCode::Char('i'));
    let esc = Event::Key(KeyCode::Esc);
    let q = Event::Key(KeyCode::Char('q'));
    let all = seq![i, esc, q];
    let inserting = State { mode: Mode::Insert, ..s };
    assert(all.take(0) =~= Seq::<Event>::empty());
    assert(all.take(3) =~= all);
    lemma_replay_next(s, all, 0);
    lemma_replay_next(s, all, 1);
    lemma_replay_next(s, all, 2);
    assert(replay(s, all.take(1)).state == inserting);
    assert(replay(s, all.take(2)).state == s);
    assert(frame(inserting) == frame(s));
    reveal_with_fuel(repeated, 4);
    assert(replay(s, all).output =~= repeated(frame(s), 3));
    if s.in_range() {
        assert forall|k: int| 0 <= k <= all.len() implies (#[trigger] replay(
            s,
            all.take(k),
        )).state.in_range() by {
            assert(k == 0 || k == 1 || k == 2 || k == 3);
        }
    }
}

/// `q` first ends the session at once, whatever follows it: from Normal mode
/// the loop draws one frame, takes that one event and quits, with the editor
/// unchanged. The events behind the `q` are never taken. No coordinate leaves
/// its range on the way.
pub proof fn lemma_run_stops_at_leading_q(s: State, events: Seq<Event>)
    requires
        s.mode == Mode::Normal,
        events.len() >= 1,
        events[0] == Event::Key(KeyCode::Char('q')),
    ensures
        run(s, events).state == s,
        run(s, events).quit,
        run(s, events).consumed == 1,
        run(s, events).output == frame(s),
        s.in_range() ==> replay_in_range(s, events),
{
    assert(events.take(0) =~= Seq::<Event>::empty());
    lemma_replay_next(s, events, 0);
    lemma_replay_stops_at_quit(s, events, 1);
    assert(replay(s, events).output =~= frame(s));
    if s.in_range() {
        assert forall|k: int| 0 <= k <= events.len() implies (#[trigger] replay(
            s,
            events.take(k),
        )).state.in_range() by {
            if k >= 1 {
                assert(events.take(k).take(1) =~= events.take(1));
                lemma_replay_stops_at_quit(s, events.take(k), 1);
            } else {
                assert(events.take(k) =~= Seq::<Event>::empty());
            }
        }
    }
}

/// Only a printable character becomes text, and only in Insert mode, from
/// the key that carries it.
pub proof fn lemma_only_printable_characters_become_text(mode: Mode, ev: Event, c: char)
    ensures
        translate(mode, ev) == Some(Action::AddChar(c)) <==> mode == Mode::Insert && ev
            == Event::Key(KeyCode::Char(c)) && is_printable(c),
{
}

/// A frame is a bounded run of writes closed by its one and only flush.
pub proof fn lemma_frame_ends_in_its_only_flush(s: State)
    ensures
        frame(s).len() == 4,
        frame(s).last() == Command::Flush,
        forall|i: int| 0 <= i < frame(s).len() - 1 ==> frame(s)[i] != Command::Flush,
{
}

/// What an action writes at once is never flushed by the action itself: it
/// becomes visible with the next frame.
pub proof fn lemma_echo_never_flushes(s: State, a: Action)
    ensures
        forall|i: int| 0 <= i < echo(s, a).len() ==> echo(s, a)[i] != Command::Flush,
{
}

/// Only `q` in Normal mode quits. Insert mode has no way out of the session:
/// there `q` is text.
pub proof fn lemma_quit_only_by_q_in_normal(s: State, ev: Event)
    ensures
        step_quits(s, ev) <==> s.mode == Mode::Normal && ev == Event::Key(KeyCode::Char('q')),
{
}

/// The mode changes on two events only: `i` in Normal mode and Escape in
/// Insert mode.
pub proof fn lemma_mode_changes_only_by_i_and_escape(s: State, ev: Event)
    ensures
        step(s, ev).mode != s.mode <==> (s.mode == Mode::Normal && ev == Event::Key(
            KeyCode::Char('i'),
        )) || (s.mode == Mode::Insert && ev == Event::Key(KeyCode::Esc)),
{
}

/// One event moves each coordinate by at most one cell, never below zero,
/// and leaves the captured terminal dimensions alone.
pub proof fn lemma_step_is_local(s: State, ev: Event)
    requires
        s.cursor_on_canvas(),
    ensures
        step(s, ev).cursor_on_canvas(),
        step(s, ev).cx <= s.cx + 1,
        step(s, ev).cy <= s.cy + 1,
        step(s, ev).cols == s.cols,
        step(s, ev).rows == s.rows,
{
}

/// A session is as local as its events: after `events` the cursor is on the
/// canvas, no further from where it started than the number of events taken,
/// and the terminal dimensions are those captured at the start.
pub proof fn lemma_replay_is_local(s: State, events: Seq<Event>)
    requires
        s.cursor_on_canvas(),
    ensures
        replay(s, events).state.cursor_on_canvas(),
        replay(s, events).state.cx <= s.cx + events.len(),
        replay(s, events).state.cy <= s.cy + events.len(),
        replay(s, events).state.cols == s.cols,
        replay(s, events).state.rows == s.rows,
        replay(s, events).consumed <= events.len(),
    decreases events.len(),
{
    if events.len() > 0 {
        lemma_replay_is_local(s, events.drop_last());
        lemma_step_is_local(replay(s, events.drop_last()).state, events.last());
    }
}

/// A session short enough to keep the cursor within 16 bits even if every
/// event pushed it outwards stays in range throughout.
pub proof fn lemma_short_session_in_range(s: State, events: Seq<Event>)
    requires
        s.in_range(),
        s.cx + events.len() <= u16::MAX,
        s.cy + events.len() <= u16::MAX,
    ensures
        replay_in_range(s, events),
{
    assert forall|k: int| 0 <= k <= events.len() implies (#[trigger] replay(
        s,
        events.take(k),
    )).state.in_range() by {
        lemma_replay_is_local(s, events.take(k));
    }
}

} // verus!
