//! The application state and the key dispatcher.
//!
//! `App` holds what one keystroke can change: the input buffer, the mode,
//! the cursor, the show-index and the peer's session record.  The
//! conversation log is shared with the background receiver, so it is passed
//! in separately, locked by the caller for the duration of the call.  The
//! event loop itself — render, poll, dispatch, repeat until closed — lives
//! in the embedding binary: it calls `plan_frame` to render, `handle_key`
//! to dispatch, and carries out the returned `Action`.

use vstd::prelude::*;
use vstd::string::StrSliceExecFns;
use vstd::string::StringExecFns;
use vstd::utf8::decode_utf8;
use vstd::utf8::valid_utf8;

use crate::SessionError;
use crate::cursor::CursorPos;
use crate::cursor::clamp_spec;
use crate::cursor::cursor_wf;
use crate::cursor::line_len_at;
use crate::cursor::lines_nonempty;
use crate::cursor::move_spec;
use crate::message_log::MessageLog;
use crate::mode::Action;
use crate::mode::Key;
use crate::mode::Mode;
use crate::mode::is_arrow;
use crate::mode::mode_after;
use crate::session::Peer;
use crate::session::handshake_name;
use crate::text::chat_line;
use crate::text::first_space;
use crate::text::format_line;
use crate::text::spec_trim;
use crate::text::strip_trailing_nuls;
use crate::text::trim_spaces;
use crate::text::you_name;
use crate::viewport::Row;
use crate::viewport::build_rows;
use crate::viewport::cursor_follow_spec;
use crate::viewport::cursor_row_spec;
use crate::viewport::cursor_screen_row;
use crate::viewport::cursor_show_idx;
use crate::viewport::editing_show_idx;
use crate::viewport::follow_tail_spec;
use crate::viewport::spec_rows;

verus! {

/// The state one keystroke can change.
pub struct App {
    /// The live input buffer, shown on the input row behind "You: ".
    pub input: String,
    /// The active interaction mode.
    pub input_mode: Mode,
    /// The index of the first log line inside the window.
    pub show_idx: usize,
    /// The cursor over the log and the input row.
    pub cursor_pos: CursorPos,
    /// The peer's display name and the local address.
    pub peer: Peer,
}

/// The cursor after a keystroke: movement keys in Normal and Selecting mode
/// move it (re-anchoring it first, since the log may have grown under it);
/// every other keystroke leaves it alone.
pub open spec fn cursor_after(app: App, log: Seq<Seq<char>>, k: Key) -> CursorPos {
    if (app.input_mode == Mode::Normal || app.input_mode == Mode::Selecting) && is_arrow(k) {
        move_spec(clamp_spec(app.cursor_pos, log, app.input@), k, log, app.input@)
    } else {
        app.cursor_pos
    }
}

/// Whether a keystroke sends a message: Enter in Editing mode, with an
/// input buffer that is not all whitespace.
pub open spec fn sends_message(app: App, k: Key) -> bool {
    app.input_mode == Mode::Editing && k is Enter && spec_trim(app.input@).len() > 0
}

/// The input buffer after a keystroke: in Editing mode characters append,
/// Backspace drops the last character, and a send clears it; in every other
/// mode it is untouched.
pub open spec fn input_after(app: App, k: Key) -> Seq<char> {
    if app.input_mode == Mode::Editing {
        match k {
            Key::Char(c) => app.input@.push(c),
            Key::Backspace => if app.input@.len() > 0 {
                app.input@.drop_last()
            } else {
                app.input@
            },
            Key::Enter => if spec_trim(app.input@).len() > 0 {
                Seq::<char>::empty()
            } else {
                app.input@
            },
            _ => app.input@,
        }
    } else {
        app.input@
    }
}

/// The log after a keystroke: a send appends exactly one local echo,
/// "You: " followed by the trimmed text; nothing else touches the log.
pub open spec fn log_after(app: App, log: Seq<Seq<char>>, k: Key) -> Seq<Seq<char>> {
    if sends_message(app, k) {
        log.push(chat_line(you_name(), spec_trim(app.input@)))
    } else {
        log
    }
}

/// Whether a keystroke copies a line out: `y` in Normal mode with the
/// cursor on a log line that has a sender/text separator.
pub open spec fn copies_line(app: App, log: Seq<Seq<char>>, k: Key) -> bool {
    &&& app.input_mode == Mode::Normal
    &&& k == Key::Char('y')
    &&& app.cursor_pos.line < log.len()
    &&& first_space(log[app.cursor_pos.line as int]) < log[app.cursor_pos.line as int].len()
}

/// The text a copy takes out: everything after the line's first space,
/// that is the message without its sender label.
pub open spec fn copied_text(app: App, log: Seq<Seq<char>>) -> Seq<char> {
    let l = log[app.cursor_pos.line as int];
    l.subrange(first_space(l) + 1, l.len() as int)
}

/// One frame's render plan: the content rows, top to bottom, and where the
/// terminal cursor goes inside the content area.
pub struct FramePlan {
    pub rows: Vec<Row>,
    pub cursor_x: usize,
    pub cursor_y: usize,
}

impl App {
    /// A fresh application state over a just-established session: empty
    /// input, Normal mode, window and cursor at the top.
    pub fn new(peer: Peer) -> (app: App)
        ensures
            app.input@ == Seq::<char>::empty(),
            app.input_mode == Mode::Normal,
            app.show_idx == 0,
            app.cursor_pos == (CursorPos { line: 0, col: 0 }),
            app.peer == peer,
    {
        App {
            input: String::new(),
            input_mode: Mode::Normal,
            show_idx: 0,
            cursor_pos: CursorPos { line: 0, col: 0 },
            peer,
        }
    }

    /// The log line under the cursor, or nothing when the cursor sits on
    /// the live input row.
    pub fn get_selected_line(&self, log: &MessageLog) -> (r: Option<String>)
        ensures
            self.cursor_pos.line < log@.len() ==> (r matches Some(l) && l@ == log@[
                self.cursor_pos.line as int
            ]),
            self.cursor_pos.line >= log@.len() ==> r is None,
    {
        if self.cursor_pos.line < log.len() {
            Some(log.line(self.cursor_pos.line).clone())
        } else {
            None
        }
    }

    /// The length of the row under the cursor; on the input row that is
    /// the "You: " label plus the input buffer.
    pub fn get_selected_line_len(&self, log: &MessageLog) -> (n: usize)
        requires
            self.input@.len() + 5 <= usize::MAX,
        ensures
            n == line_len_at(log@, self.input@, self.cursor_pos.line as int),
    {
        if self.cursor_pos.line < log.len() {
            log.line(self.cursor_pos.line).as_str().unicode_len()
        } else {
            self.input.as_str().unicode_len() + 5
        }
    }

    /// Applies one movement key: re-anchors the cursor to the current log
    /// and input row, then moves it.  The cursor ends in range whatever
    /// state it started from.
    pub fn check_move_cursor(&mut self, code: &Key, log: &MessageLog)
        requires
            lines_nonempty(log@),
            old(self).input@.len() + 5 <= usize::MAX,
        ensures
            final(self).cursor_pos == move_spec(
                clamp_spec(old(self).cursor_pos, log@, old(self).input@),
                *code,
                log@,
                old(self).input@,
            ),
            cursor_wf(final(self).cursor_pos, log@, final(self).input@),
            final(self).input == old(self).input,
            final(self).input_mode == old(self).input_mode,
            final(self).show_idx == old(self).show_idx,
            final(self).peer == old(self).peer,
    {
        self.cursor_pos.clamp_to(log, &self.input);
        self.cursor_pos.apply_move(code, log, &self.input);
    }

    /// Dispatches one keystroke through the mode state machine, under the
    /// caller's log lock, and says what remains to be done outside: quit,
    /// send, copy out, or nothing.  Sending appends the local echo here;
    /// writing the text to the peer is the caller's part.
    pub fn handle_key(&mut self, key: Key, log: &mut MessageLog) -> (act: Action)
        requires
            lines_nonempty(old(log)@),
            old(self).input@.len() + 5 <= usize::MAX,
        ensures
            final(self).input_mode == mode_after(old(self).input_mode, key),
            final(self).cursor_pos == cursor_after(*old(self), old(log)@, key),
            final(self).input@ == input_after(*old(self), key),
            final(log)@ == log_after(*old(self), old(log)@, key),
            final(self).show_idx == old(self).show_idx,
            final(self).peer == old(self).peer,
            lines_nonempty(final(log)@),
            act is Send <==> sends_message(*old(self), key),
            (act matches Action::Send(t) ==> t@ == spec_trim(old(self).input@)),
            act is Quit <==> old(self).input_mode == Mode::Normal && key == Key::Char('q'),
            act is Copy <==> copies_line(*old(self), old(log)@, key),
            (act matches Action::Copy(t) ==> t@ == copied_text(*old(self), old(log)@)),
    {
        match self.input_mode {
            Mode::Normal => match key {
                Key::Char(c) => {
                    if c == 'i' {
                        self.input_mode = Mode::Editing;
                        Action::Idle
                    } else if c == 'v' {
                        self.input_mode = Mode::Selecting;
                        Action::Idle
                    } else if c == 'q' {
                        Action::Quit
                    } else if c == 'y' {
                        self.copy_selected(log)
                    } else {
                        Action::Idle
                    }
                },
                Key::Left | Key::Right | Key::Up | Key::Down => {
                    self.check_move_cursor(&key, log);
                    Action::Idle
                },
                _ => Action::Idle,
            },
            Mode::Selecting => match key {
                Key::Esc => {
                    self.input_mode = Mode::Normal;
                    Action::Idle
                },
                Key::Left | Key::Right | Key::Up | Key::Down => {
                    self.check_move_cursor(&key, log);
                    Action::Idle
                },
                _ => Action::Idle,
            },
            Mode::Editing => match key {
                Key::Enter => {
                    let trimmed = trim_spaces(self.input.as_str());
                    if !trimmed.as_str().is_empty() {
                        let echo = format_line("You", trimmed.as_str());
                        proof {
                            reveal_strlit("You");
                            assert("You"@ =~= you_name());
                            assert(echo@ == chat_line(you_name(), spec_trim(old(self).input@)));
                        }
                        log.append(echo);
                        self.input = String::new();
                        Action::Send(trimmed)
                    } else {
                        Action::Idle
                    }
                },
                Key::Char(c) => {
                    self.input.push(c);
                    Action::Idle
                },
                Key::Backspace => {
                    let _ = self.input.pop();
                    Action::Idle
                },
                Key::Esc => {
                    self.input_mode = Mode::Normal;
                    Action::Idle
                },
                _ => Action::Idle,
            },
        }
    }

    /// The copy-out half of the `y` key: the text of the line under the
    /// cursor, without its sender label.
    fn copy_selected(&self, log: &MessageLog) -> (act: Action)
        ensures
            act is Copy <==> (self.cursor_pos.line < log@.len() && first_space(
                log@[self.cursor_pos.line as int],
            ) < log@[self.cursor_pos.line as int].len()),
            (act matches Action::Copy(t) ==> t@ == copied_text(*self, log@)),
            !(act is Copy) ==> act is Idle,
    {
        if self.cursor_pos.line < log.len() {
            let line = log.line(self.cursor_pos.line);
            let n = line.as_str().unicode_len();
            match crate::text::find_space(line.as_str()) {
                Option::Some(i) => {
                    let text = line.as_str().substring_char(i + 1, n);
                    Action::Copy(String::from_str(text))
                },
                Option::None => Action::Idle,
            }
        } else {
            Action::Idle
        }
    }

    /// Prepares one frame.  Updates the show-index for the current mode —
    /// tail-follow in Editing, cursor-follow otherwise — pins the cursor to
    /// the input row's caret in Editing, and returns the content rows and
    /// the cursor's screen position.
    pub fn plan_frame(&mut self, log: &MessageLog, h: usize) -> (plan: FramePlan)
        requires
            h >= 3,
            old(self).show_idx <= log@.len(),
            old(self).cursor_pos.line <= log@.len(),
            old(self).input@.len() + 5 <= usize::MAX,
        ensures
            final(self).input == old(self).input,
            final(self).input_mode == old(self).input_mode,
            final(self).peer == old(self).peer,
            final(self).show_idx <= log@.len(),
            old(self).input_mode == Mode::Editing ==> final(self).show_idx == follow_tail_spec(
                log@.len() as int,
                h as int,
            ) && final(self).cursor_pos == (CursorPos {
                line: log@.len() as usize,
                col: (old(self).input@.len() + 5) as usize,
            }),
            old(self).input_mode != Mode::Editing ==> final(self).show_idx == cursor_follow_spec(
                old(self).show_idx as int,
                old(self).cursor_pos.line as int,
                h as int,
            ) && final(self).cursor_pos == old(self).cursor_pos
                && final(self).show_idx <= final(self).cursor_pos.line
                && final(self).cursor_pos.line < final(self).show_idx + (h - 1),
            plan.rows@ =~= spec_rows(
                final(self).show_idx as int,
                log@.len() as int,
                h as int,
                old(self).input_mode == Mode::Editing,
            ),
            1 <= plan.rows@.len() <= h,
            forall|k: int|
                0 <= k < plan.rows@.len() ==> (#[trigger] plan.rows@[k] matches Row::Message(m)
                    ==> m < log@.len()),
            plan.cursor_y == cursor_row_spec(
                final(self).show_idx as int,
                final(self).cursor_pos.line as int,
            ),
            plan.cursor_y < h,
            final(self).show_idx > 0 ==> plan.cursor_y >= 1,
            plan.cursor_x == final(self).cursor_pos.col,
    {
        let len = log.len();
        let editing = self.input_mode == Mode::Editing;
        if editing {
            self.show_idx = editing_show_idx(len, h);
            self.cursor_pos.line = len;
            self.cursor_pos.col = self.input.as_str().unicode_len() + 5;
        } else {
            self.show_idx = cursor_show_idx(self.show_idx, self.cursor_pos.line, h);
        }
        let rows = build_rows(self.show_idx, len, h, editing);
        let y = cursor_screen_row(self.show_idx, self.cursor_pos.line);
        FramePlan { rows, cursor_x: self.cursor_pos.col, cursor_y: y }
    }

    /// The status line's text: the local address the session runs on.
    pub fn status_text(&self) -> (s: String)
        ensures
            s@ == "[Connected to "@ + self.peer.ip_str@ + "]"@,
    {
        String::from_str("[Connected to ").concat(self.peer.get_ip_str()).concat("]")
    }

    /// The mode indicator shown under the status line.
    pub fn mode_label(&self) -> (s: String)
        ensures
            self.input_mode == Mode::Normal ==> s@ == "Press Q to quit"@,
            self.input_mode == Mode::Editing ==> s@ == "-- INSERT --"@,
            self.input_mode == Mode::Selecting ==> s@ == "-- SELECT --"@,
    {
        match self.input_mode {
            Mode::Normal => String::from_str("Press Q to quit"),
            Mode::Editing => String::from_str("-- INSERT --"),
            Mode::Selecting => String::from_str("-- SELECT --"),
        }
    }
}

/// The pure half of accepting a session: the accepting side reads the
/// peer's name first and answers with its own, so this is called with the
/// bytes of that first read.  The listening, accepting and reading happen
/// in the embedding binary.
pub fn start_server(handshake: &[u8], n: usize, local_addr: String) -> (r: Result<
    App,
    SessionError,
>)
    ensures
        n == 0 ==> (r matches Err(e) && e == SessionError::EmptyHandshake),
        n > 0 && !valid_utf8(handshake@) ==> (r matches Err(e) && e == SessionError::MalformedText),
        n > 0 && valid_utf8(handshake@) ==> (r matches Ok(app) && app.peer.name@
            == strip_trailing_nuls(decode_utf8(handshake@)) && app.peer.ip_str == local_addr
            && app.input_mode == Mode::Normal && app.input@ == Seq::<char>::empty() && app.show_idx
            == 0 && app.cursor_pos == (CursorPos { line: 0, col: 0 })),
{
    match handshake_name(handshake, n) {
        Result::Err(e) => Err(e),
        Result::Ok(name) => Ok(App::new(Peer::new(name, local_addr))),
    }
}

/// The pure half of opening a session: the connecting side writes its name
/// first and then reads the peer's, so this is called with the bytes of
/// that reply.  The connecting and the I/O order live in the embedding
/// binary; what is decoded is the same on both sides.
pub fn start_client(handshake: &[u8], n: usize, local_addr: String) -> (r: Result<
    App,
    SessionError,
>)
    ensures
        n == 0 ==> (r matches Err(e) && e == SessionError::EmptyHandshake),
        n > 0 && !valid_utf8(handshake@) ==> (r matches Err(e) && e == SessionError::MalformedText),
        n > 0 && valid_utf8(handshake@) ==> (r matches Ok(app) && app.peer.name@
            == strip_trailing_nuls(decode_utf8(handshake@)) && app.peer.ip_str == local_addr
            && app.input_mode == Mode::Normal && app.input@ == Seq::<char>::empty() && app.show_idx
            == 0 && app.cursor_pos == (CursorPos { line: 0, col: 0 })),
{
    match handshake_name(handshake, n) {
        Result::Err(e) => Err(e),
        Result::Ok(name) => Ok(App::new(Peer::new(name, local_addr))),
    }
}

} // verus!
