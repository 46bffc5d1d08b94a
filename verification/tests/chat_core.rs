use termchat::app::{App, start_client, start_server};
use termchat::cursor::CursorPos;
use termchat::message_log::{ClosedFlag, MessageLog};
use termchat::mode::{Action, Key, Mode};
use termchat::session::Peer;
use termchat::viewport::{build_rows, cursor_show_idx, editing_show_idx, Row};
use termchat::SessionError;

fn test_app() -> App {
    App::new(Peer::new(String::from("Bob"), String::from("1.2.3.4")))
}

fn log_with(lines: &[&str]) -> MessageLog {
    let mut log = MessageLog::new();
    for l in lines {
        log.append(l.to_string());
    }
    log
}

#[test]
fn log_append_only() {
    let mut log = MessageLog::new();
    assert_eq!(log.len(), 0);
    log.append(String::from("You: hi"));
    assert_eq!(log.len(), 1);
    assert_eq!(log.line(0), "You: hi");
    log.append(String::from("Bob: yo"));
    assert_eq!(log.len(), 2);
    // previously returned indices still name the same content
    assert_eq!(log.line(0), "You: hi");
    assert_eq!(log.line(1), "Bob: yo");
    let snap = log.snapshot();
    assert_eq!(snap, vec![String::from("You: hi"), String::from("Bob: yo")]);
}

#[test]
fn closed_flag_one_way() {
    let mut flag = ClosedFlag::new();
    assert!(!flag.get());
    flag.set();
    assert!(flag.get());
    flag.set();
    assert!(flag.get());
}

#[test]
fn down_four_times_clamps_column() {
    // Normal mode, five entries, cursor at line 0: Down four times lands on
    // line 4 with the column clamped to that line's last character.
    let mut l = log_with(&[
        "alice: 0123456789",
        "Bob: yo",
        "alice: hello there",
        "Bob: ok",
        "alice: bye",
    ]);
    let mut app = test_app();
    app.cursor_pos = CursorPos { line: 0, col: 9 };
    for _ in 0..4 {
        let act = app.handle_key(Key::Down, &mut l);
        assert!(matches!(act, Action::Idle));
    }
    assert_eq!(app.cursor_pos.line, 4);
    // passing "Bob: yo" clamped the column to 6, and no preferred column is
    // remembered: on line 4 it is min(6, 10 - 1) == 6
    assert_eq!(app.cursor_pos.col, 6);

    // one more Down moves onto the input row ("You: ", empty buffer):
    // the column clamps to min(6, 5 - 1)
    let act = app.handle_key(Key::Down, &mut l);
    assert!(matches!(act, Action::Idle));
    assert_eq!(app.cursor_pos.line, 5);
    assert_eq!(app.cursor_pos.col, 4);
    // and Down at the input row stays put
    app.handle_key(Key::Down, &mut l);
    assert_eq!(app.cursor_pos.line, 5);
}

#[test]
fn cursor_stays_in_range_on_empty_input_row() {
    // Empty log: the cursor sits on the input row, whose content is the
    // bare "You: " label.  Right never leaves the last character, Left
    // never goes below zero.
    let mut log = MessageLog::new();
    let mut app = test_app();
    for _ in 0..10 {
        app.handle_key(Key::Right, &mut log);
    }
    assert_eq!(app.cursor_pos.col, 4);
    for _ in 0..10 {
        app.handle_key(Key::Left, &mut log);
    }
    assert_eq!(app.cursor_pos.col, 0);
    assert_eq!(app.cursor_pos.line, 0);
}

#[test]
fn up_clamps_column_to_shorter_line() {
    let log = log_with(&["Bob: yo", "alice: a long line here"]);
    let mut l = log;
    let mut app = test_app();
    app.cursor_pos = CursorPos { line: 1, col: 15 };
    app.handle_key(Key::Up, &mut l);
    assert_eq!(app.cursor_pos.line, 0);
    // "Bob: yo" has 7 characters
    assert_eq!(app.cursor_pos.col, 6);
}

#[test]
fn mode_transitions() {
    let mut log = MessageLog::new();
    let mut app = test_app();
    assert!(matches!(app.input_mode, Mode::Normal));
    app.handle_key(Key::Char('i'), &mut log);
    assert!(matches!(app.input_mode, Mode::Editing));
    app.handle_key(Key::Esc, &mut log);
    assert!(matches!(app.input_mode, Mode::Normal));
    app.handle_key(Key::Char('v'), &mut log);
    assert!(matches!(app.input_mode, Mode::Selecting));
    // q quits only from Normal
    let act = app.handle_key(Key::Char('q'), &mut log);
    assert!(matches!(act, Action::Idle));
    app.handle_key(Key::Esc, &mut log);
    let act = app.handle_key(Key::Char('q'), &mut log);
    assert!(matches!(act, Action::Quit));
    assert!(matches!(app.input_mode, Mode::Normal));
}

#[test]
fn enter_sends_and_echoes() {
    // Editing mode, input buffer "hi", Enter: the log gains exactly one
    // entry "You: hi", the buffer empties, and one send of "hi" is asked.
    let mut log = MessageLog::new();
    let mut app = test_app();
    app.handle_key(Key::Char('i'), &mut log);
    app.handle_key(Key::Char('h'), &mut log);
    app.handle_key(Key::Char('i'), &mut log);
    assert_eq!(app.input, "hi");
    let act = app.handle_key(Key::Enter, &mut log);
    match act {
        Action::Send(t) => assert_eq!(t, "hi"),
        _ => panic!("expected a send"),
    }
    assert_eq!(log.len(), 1);
    assert_eq!(log.line(0), "You: hi");
    assert_eq!(app.input, "");
    assert!(matches!(app.input_mode, Mode::Editing));
}

#[test]
fn enter_trims_whitespace() {
    let mut log = MessageLog::new();
    let mut app = test_app();
    app.input_mode = Mode::Editing;
    app.input = String::from("  spaced out \t ");
    let act = app.handle_key(Key::Enter, &mut log);
    match act {
        Action::Send(t) => assert_eq!(t, "spaced out"),
        _ => panic!("expected a send"),
    }
    assert_eq!(log.line(0), "You: spaced out");
}

#[test]
fn enter_on_blank_input_sends_nothing() {
    let mut log = MessageLog::new();
    let mut app = test_app();
    app.input_mode = Mode::Editing;
    app.input = String::from("   ");
    let act = app.handle_key(Key::Enter, &mut log);
    assert!(matches!(act, Action::Idle));
    assert_eq!(log.len(), 0);
    assert_eq!(app.input, "   ");
}

#[test]
fn backspace_edits_input() {
    let mut log = MessageLog::new();
    let mut app = test_app();
    app.input_mode = Mode::Editing;
    app.handle_key(Key::Char('h'), &mut log);
    app.handle_key(Key::Char('i'), &mut log);
    app.handle_key(Key::Backspace, &mut log);
    assert_eq!(app.input, "h");
    app.handle_key(Key::Backspace, &mut log);
    app.handle_key(Key::Backspace, &mut log);
    assert_eq!(app.input, "");
}

#[test]
fn copy_takes_text_after_sender() {
    let mut log = log_with(&["Bob: the secret words"]);
    let mut app = test_app();
    let act = app.handle_key(Key::Char('y'), &mut log);
    match act {
        Action::Copy(t) => assert_eq!(t, "the secret words"),
        _ => panic!("expected a copy"),
    }
    // on the input row there is nothing to copy
    app.cursor_pos.line = 1;
    let act = app.handle_key(Key::Char('y'), &mut log);
    assert!(matches!(act, Action::Idle));
}

#[test]
fn editing_viewport_pins_to_tail() {
    assert_eq!(editing_show_idx(10, 4), 7);
    assert_eq!(editing_show_idx(3, 4), 0);
    assert_eq!(editing_show_idx(0, 4), 0);
    assert_eq!(editing_show_idx(4, 4), 1);
}

#[test]
fn cursor_viewport_follows_cursor() {
    // cursor above the window: window moves to one line above the cursor
    assert_eq!(cursor_show_idx(5, 2, 5), 1);
    // cursor at line 0 with a scrolled window: window snaps to the top
    assert_eq!(cursor_show_idx(5, 0, 5), 0);
    // cursor at or past the window's bottom: it lands on the last content row
    assert_eq!(cursor_show_idx(0, 4, 5), 1);
    assert_eq!(cursor_show_idx(0, 10, 5), 7);
    // cursor inside the window: nothing moves
    assert_eq!(cursor_show_idx(1, 2, 5), 1);
    // the window now contains the cursor in every case
    for show in 0..12usize {
        for line in 0..12usize {
            for h in 3..8usize {
                let idx = cursor_show_idx(show, line, h);
                assert!(idx <= line);
                assert!(line < idx + (h - 1));
            }
        }
    }
}

#[test]
fn rows_show_window_and_markers() {
    // nothing scrolled out: plain lines, then the input row
    assert_eq!(
        build_rows(0, 2, 5, false),
        vec![Row::Message(0), Row::Message(1), Row::Input]
    );
    // scrolled out above and below: markers on both edges
    assert_eq!(
        build_rows(1, 10, 4, false),
        vec![Row::Marker, Row::Message(2), Row::Message(3), Row::Marker]
    );
    // editing always ends with the input row, never a bottom marker
    assert_eq!(
        build_rows(7, 10, 4, true),
        vec![Row::Marker, Row::Message(8), Row::Message(9), Row::Input]
    );
    // empty log: only the input row
    assert_eq!(build_rows(0, 0, 3, false), vec![Row::Input]);
}

#[test]
fn frame_plan_in_editing_mode() {
    let mut log = MessageLog::new();
    for i in 0..10 {
        log.append(format!("Bob: {}", i));
    }
    let mut app = test_app();
    app.input_mode = Mode::Editing;
    app.input = String::from("abc");
    let plan = app.plan_frame(&log, 4);
    assert_eq!(app.show_idx, 7);
    assert_eq!(app.cursor_pos.line, 10);
    assert_eq!(app.cursor_pos.col, 8);
    assert_eq!(plan.cursor_x, 8);
    assert_eq!(plan.cursor_y, 3);
    assert_eq!(
        plan.rows,
        vec![Row::Marker, Row::Message(8), Row::Message(9), Row::Input]
    );
}

#[test]
fn frame_plan_follows_cursor_in_normal_mode() {
    let mut log = MessageLog::new();
    for i in 0..10 {
        log.append(format!("Bob: {}", i));
    }
    let mut app = test_app();
    app.cursor_pos = CursorPos { line: 9, col: 0 };
    let plan = app.plan_frame(&log, 5);
    assert_eq!(app.show_idx, 6);
    assert_eq!(plan.cursor_y, 3);
    assert!(app.show_idx <= 9 && 9 < app.show_idx + 4);
    // outside Editing the bottom row is a marker whenever the window's
    // bottom does not reach past the log's end
    assert_eq!(
        plan.rows,
        vec![Row::Marker, Row::Message(7), Row::Message(8), Row::Message(9), Row::Marker]
    );
}

#[test]
fn frame_plan_on_minimal_terminal() {
    let log = MessageLog::new();
    let mut app = test_app();
    let plan = app.plan_frame(&log, 3);
    assert_eq!(plan.rows, vec![Row::Input]);
    assert_eq!(plan.cursor_y, 0);
    assert_eq!(plan.cursor_x, 0);
    assert_eq!(app.show_idx, 0);
}

#[test]
fn status_and_mode_labels() {
    let mut app = test_app();
    assert_eq!(app.status_text(), "[Connected to 1.2.3.4]");
    assert_eq!(app.mode_label(), "Press Q to quit");
    app.input_mode = Mode::Editing;
    assert_eq!(app.mode_label(), "-- INSERT --");
    app.input_mode = Mode::Selecting;
    assert_eq!(app.mode_label(), "-- SELECT --");
}

#[test]
fn session_setup_from_handshake() {
    let mut buf = [0u8; 64];
    buf[..5].copy_from_slice(b"Alice");
    let app = start_server(&buf, 5, String::from("10.0.0.1")).unwrap();
    assert_eq!(app.peer.name, "Alice");
    assert_eq!(app.peer.ip_str, "10.0.0.1");
    assert!(matches!(app.input_mode, Mode::Normal));
    assert_eq!(app.input, "");
    assert_eq!(app.show_idx, 0);
    assert_eq!(app.cursor_pos, CursorPos { line: 0, col: 0 });

    let app = start_client(&buf, 5, String::from("10.0.0.2")).unwrap();
    assert_eq!(app.peer.name, "Alice");
    assert_eq!(app.peer.ip_str, "10.0.0.2");
}

#[test]
fn session_setup_rejects_empty_handshake() {
    let buf = [0u8; 64];
    match start_server(&buf, 0, String::from("10.0.0.1")) {
        Err(SessionError::EmptyHandshake) => {}
        _ => panic!("expected an empty-handshake error"),
    }
}
