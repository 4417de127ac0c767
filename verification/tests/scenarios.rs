use modal_editor::action::Mode;
use modal_editor::editor::Editor;
use modal_editor::event::{Event, KeyCode};
use modal_editor::screen::{Command, STATUS_TEXT};

fn press(c: char) -> Event {
    Event::Key(KeyCode::Char(c))
}

fn frame_at(rows: u16, cx: u16, cy: u16) -> Vec<Command> {
    vec![
        Command::MoveTo(0, rows - 2),
        Command::PrintStr(STATUS_TEXT),
        Command::MoveTo(cx, cy),
        Command::Flush,
    ]
}

#[test]
fn l_three_times_moves_three_columns_right() {
    let mut editor = Editor::new((80, 24));
    for _ in 0..3 {
        let out = editor.step(press('l'));
        assert!(!out.quit);
        assert!(out.commands.is_empty());
    }
    assert_eq!(editor.cx(), 3);
    assert_eq!(editor.cy(), 0);
    assert_eq!(editor.mode(), Mode::Normal);
}

#[test]
fn typing_hi_then_enter_writes_both_cells_and_opens_a_line() {
    let mut editor = Editor::new((80, 24));

    let out = editor.step(press('i'));
    assert!(out.commands.is_empty());
    assert_eq!(editor.mode(), Mode::Insert);

    let out = editor.step(press('h'));
    assert_eq!(out.commands, vec![Command::MoveTo(0, 0), Command::PrintChar('h')]);
    assert_eq!((editor.cx(), editor.cy()), (1, 0));

    let out = editor.step(press('i'));
    assert_eq!(out.commands, vec![Command::MoveTo(1, 0), Command::PrintChar('i')]);
    assert_eq!((editor.cx(), editor.cy()), (2, 0));

    let out = editor.step(Event::Key(KeyCode::Enter));
    assert!(out.commands.is_empty());
    assert!(!out.quit);

    assert_eq!(editor.mode(), Mode::Insert);
    assert_eq!((editor.cx(), editor.cy()), (0, 1));
}

#[test]
fn typing_hi_then_enter_as_one_session() {
    let mut editor = Editor::new((80, 24));
    let events = [press('i'), press('h'), press('i'), Event::Key(KeyCode::Enter)];
    let report = editor.run(&events);

    let mut expected = Vec::new();
    expected.extend(frame_at(24, 0, 0));
    expected.extend(frame_at(24, 0, 0));
    expected.extend(vec![Command::MoveTo(0, 0), Command::PrintChar('h')]);
    expected.extend(frame_at(24, 1, 0));
    expected.extend(vec![Command::MoveTo(1, 0), Command::PrintChar('i')]);
    expected.extend(frame_at(24, 2, 0));
    expected.extend(frame_at(24, 0, 1));

    assert_eq!(report.output, expected);
    assert_eq!(report.consumed, 4);
    assert!(!report.quit);
    assert_eq!(editor.mode(), Mode::Insert);
    assert_eq!((editor.cx(), editor.cy()), (0, 1));
}

#[test]
fn q_in_normal_mode_ends_the_session() {
    let mut editor = Editor::new((80, 24));
    let out = editor.step(press('q'));
    assert!(out.quit);
    assert!(out.commands.is_empty());
    assert_eq!(editor, Editor::new((80, 24)));
}

#[test]
fn the_loop_stops_at_q_and_leaves_the_rest_untouched() {
    let mut editor = Editor::new((80, 24));
    let report = editor.run(&[press('l'), press('q'), press('l'), press('j')]);
    assert!(report.quit);
    assert_eq!(report.consumed, 2);
    assert_eq!((editor.cx(), editor.cy()), (1, 0));

    let mut expected = frame_at(24, 0, 0);
    expected.extend(frame_at(24, 1, 0));
    assert_eq!(report.output, expected);
}

#[test]
fn arrow_up_in_insert_mode_is_ignored() {
    let mut editor = Editor::new((80, 24));
    editor.step(press('i'));
    editor.step(press('a'));
    editor.step(Event::Key(KeyCode::Enter));
    editor.step(press('b'));
    assert_eq!((editor.cx(), editor.cy(), editor.mode()), (1, 1, Mode::Insert));

    assert_eq!(editor.handle_event(Event::Key(KeyCode::Up)), None);
    let out = editor.step(Event::Key(KeyCode::Up));
    assert!(!out.quit);
    assert!(out.commands.is_empty());
    assert_eq!((editor.cx(), editor.cy(), editor.mode()), (1, 1, Mode::Insert));
    assert_eq!(editor.size(), (80, 24));
}

#[test]
fn q_in_insert_mode_is_text() {
    let mut editor = Editor::new((80, 24));
    editor.step(press('i'));
    let out = editor.step(press('q'));
    assert!(!out.quit);
    assert_eq!(out.commands, vec![Command::MoveTo(0, 0), Command::PrintChar('q')]);
    assert_eq!(editor.cx(), 1);
    assert_eq!(editor.mode(), Mode::Insert);
}
