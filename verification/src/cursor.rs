//! The cursor over the conversation log.
//!
//! The cursor addresses one character of one row.  Row indices run from 0 to
//! the log's length inclusive: the index equal to the length denotes the
//! synthetic live input row, rendered as the "You: " label followed by the
//! input buffer.  A well-formed cursor always sits on an existing character
//! of the row it addresses.

use vstd::prelude::*;
use vstd::string::StrSliceExecFns;

use crate::message_log::MessageLog;
use crate::mode::Key;
use crate::text::you_label;

verus! {

/// A position over the log: a row and a character column within that row.
#[derive(Clone, Copy, PartialEq, Eq, Structural, Debug)]
pub struct CursorPos {
    pub line: usize,
    pub col: usize,
}

/// The characters shown on row `line`: a log line, or for the index one
/// past the log the live input row, the "You: " label followed by the
/// input buffer.
pub open spec fn content_at(log: Seq<Seq<char>>, input: Seq<char>, line: int) -> Seq<char> {
    if 0 <= line < log.len() {
        log[line]
    } else {
        you_label() + input
    }
}

/// The length of row `line`; at least 5 on the input row, the label alone.
pub open spec fn line_len_at(log: Seq<Seq<char>>, input: Seq<char>, line: int) -> int {
    content_at(log, input, line).len() as int
}

/// Every log line holds at least one character.  All lines are rendered as
/// "sender: text", so the chat core only ever appends non-empty lines.
pub open spec fn lines_nonempty(log: Seq<Seq<char>>) -> bool {
    forall|i: int| 0 <= i < log.len() ==> log[i].len() >= 1
}

/// A cursor in range: on an existing row, on an existing character.
pub open spec fn cursor_wf(c: CursorPos, log: Seq<Seq<char>>, input: Seq<char>) -> bool {
    &&& c.line <= log.len()
    &&& (c.col as int) < line_len_at(log, input, c.line as int)
}

/// `c` pulled back into range: first the row, then the column.
pub open spec fn clamp_spec(c: CursorPos, log: Seq<Seq<char>>, input: Seq<char>) -> CursorPos {
    let line = if c.line <= log.len() {
        c.line
    } else {
        log.len() as usize
    };
    let len = line_len_at(log, input, line as int);
    let col = if (c.col as int) < len {
        c.col
    } else {
        (len - 1) as usize
    };
    CursorPos { line, col }
}

/// Where a movement key takes a well-formed cursor.  Left and Right stay on
/// the row; Up and Down change the row and clamp the column to the new
/// row's last character.  No preferred column is remembered.
pub open spec fn move_spec(c: CursorPos, k: Key, log: Seq<Seq<char>>, input: Seq<char>) -> CursorPos {
    match k {
        Key::Left => {
            if c.col > 0 {
                CursorPos { line: c.line, col: (c.col - 1) as usize }
            } else {
                c
            }
        },
        Key::Right => {
            if c.col + 1 < line_len_at(log, input, c.line as int) {
                CursorPos { line: c.line, col: (c.col + 1) as usize }
            } else {
                c
            }
        },
        Key::Up => {
            if c.line > 0 {
                let line = (c.line - 1) as usize;
                let len = line_len_at(log, input, line as int);
                let col = if (c.col as int) < len {
                    c.col
                } else {
                    (len - 1) as usize
                };
                CursorPos { line, col }
            } else {
                c
            }
        },
        Key::Down => {
            if c.line < log.len() {
                let line = (c.line + 1) as usize;
                let len = line_len_at(log, input, line as int);
                let col = if (c.col as int) < len {
                    c.col
                } else {
                    (len - 1) as usize
                };
                CursorPos { line, col }
            } else {
                c
            }
        },
        _ => c,
    }
}

/// The length of row `line`, executed: the log line's character count, or
/// the label plus the input buffer on the input row.
pub fn selected_row_len(log: &MessageLog, input: &String, line: usize) -> (n: usize)
    requires
        line <= log@.len(),
        input@.len() + 5 <= usize::MAX,
    ensures
        n == line_len_at(log@, input@, line as int),
{
    if line < log.len() {
        log.line(line).as_str().unicode_len()
    } else {
        let n = input.as_str().unicode_len() + 5;
        proof {
            assert(line_len_at(log@, input@, line as int) == 5 + input@.len());
        }
        n
    }
}

impl CursorPos {
    /// Pulls the cursor back into range.  The log only grows and rows are
    /// never edited, but the input row shortens when a message is sent and
    /// a row the cursor sat on as the input row may since have become a
    /// (shorter) log line; movement therefore re-anchors first.
    pub fn clamp_to(&mut self, log: &MessageLog, input: &String)
        requires
            lines_nonempty(log@),
            input@.len() + 5 <= usize::MAX,
        ensures
            *final(self) == clamp_spec(*old(self), log@, input@),
            cursor_wf(*final(self), log@, input@),
    {
        let len = log.len();
        if self.line > len {
            self.line = len;
        }
        let row_len = selected_row_len(log, input, self.line);
        if self.col >= row_len {
            self.col = row_len - 1;
        }
    }

    /// Applies one movement key to a well-formed cursor; the result is
    /// well-formed again.
    pub fn apply_move(&mut self, code: &Key, log: &MessageLog, input: &String)
        requires
            cursor_wf(*old(self), log@, input@),
            lines_nonempty(log@),
            input@.len() + 5 <= usize::MAX,
        ensures
            *final(self) == move_spec(*old(self), *code, log@, input@),
            cursor_wf(*final(self), log@, input@),
    {
        match code {
            Key::Left => {
                if self.col > 0 {
                    self.col = self.col - 1;
                }
            },
            Key::Right => {
                let row_len = selected_row_len(log, input, self.line);
                if self.col + 1 < row_len {
                    self.col = self.col + 1;
                }
            },
            Key::Up => {
                if self.line > 0 {
                    self.line = self.line - 1;
                    let row_len = selected_row_len(log, input, self.line);
                    if self.col >= row_len {
                        self.col = row_len - 1;
                    }
                }
            },
            Key::Down => {
                if self.line < log.len() {
                    self.line = self.line + 1;
                    let row_len = selected_row_len(log, input, self.line);
                    if self.col >= row_len {
                        self.col = row_len - 1;
                    }
                }
            },
            _ => {},
        }
    }
}

} // verus!
