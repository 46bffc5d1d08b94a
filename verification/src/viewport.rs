//! The scrollback viewport: which contiguous slice of the log is visible.
//!
//! The terminal's content area has `h` rows.  The last row shows either the
//! live input row or a "more below" marker, so `h - 1` rows remain for log
//! lines; when older lines are scrolled out, the first of those rows is a
//! "more above" marker instead of content.  The show-index — the index of
//! the first log line inside the window — follows the tail of the log in
//! Editing mode and follows the cursor otherwise.

use vstd::prelude::*;

use crate::cursor::CursorPos;
use crate::cursor::clamp_spec;
use crate::cursor::move_spec;
use crate::mode::Key;

verus! {

/// The show-index that pins the window to the log's tail: the largest
/// index that still fills the `h - 1` content rows.
pub open spec fn follow_tail_spec(len: int, h: int) -> int {
    if len > h - 1 {
        len - (h - 1)
    } else {
        0
    }
}

/// The show-index in Editing mode: auto-follow.  New lines appended by the
/// receiver are always immediately visible.
pub fn editing_show_idx(len: usize, h: usize) -> (idx: usize)
    requires
        h >= 1,
    ensures
        idx == follow_tail_spec(len as int, h as int),
        idx == vstd::math::max(0, len as int - (h as int - 1)),
        idx <= len,
{
    if len > h - 1 {
        len - (h - 1)
    } else {
        0
    }
}

/// The show-index reached in Normal and Selecting mode.  A cursor at or
/// above the window's top pulls the window up to one row above itself (the
/// margin holds the "more above" marker); a cursor at or past the window's
/// bottom pushes the window down until it sits on the last content row;
/// otherwise the window stays.
pub open spec fn cursor_follow_spec(show: int, line: int, h: int) -> int {
    if line <= show && show > 0 {
        if line > 0 {
            line - 1
        } else {
            0
        }
    } else if line + 2 >= show + h {
        line + 2 - h
    } else {
        show
    }
}

/// The show-index in Normal and Selecting mode: cursor-follow.  After the
/// update the window always contains the cursor's row among its `h - 1`
/// content rows.
pub fn cursor_show_idx(show: usize, line: usize, h: usize) -> (idx: usize)
    requires
        h >= 3,
    ensures
        idx == cursor_follow_spec(show as int, line as int, h as int),
        idx <= line,
        line < idx + (h - 1),
        idx > 0 ==> idx < line,
{
    if line <= show {
        if show > 0 {
            if line > 0 {
                line - 1
            } else {
                0
            }
        } else {
            0
        }
    } else {
        if line - show >= h - 2 {
            line - (h - 2)
        } else {
            show
        }
    }
}

/// Law: the window follows the cursor.  In Normal and Selecting mode,
/// whatever row the cursor sits on and whichever movement key is pressed,
/// the frame update that follows puts the cursor's row among the window's
/// `h - 1` content rows.
pub proof fn lemma_window_contains_cursor(
    c: CursorPos,
    k: Key,
    log: Seq<Seq<char>>,
    input: Seq<char>,
    show: int,
    h: int,
)
    requires
        show >= 0,
        h >= 3,
    ensures
        ({
            let line = move_spec(clamp_spec(c, log, input), k, log, input).line as int;
            let idx = cursor_follow_spec(show, line, h);
            idx <= line < idx + (h - 1)
        }),
{
}

/// One row of the rendered content area.
#[derive(Clone, Copy, PartialEq, Eq, Structural, Debug)]
pub enum Row {
    /// A "more lines beyond the window" marker.
    Marker,
    /// The log line with this index.
    Message(usize),
    /// The live input row: the "You: " label and the input buffer.
    Input,
}

/// The bottom row: a "more below" marker when the window's bottom does not
/// reach the log's end and the mode is not Editing (Editing always shows
/// the tail), otherwise the live input row.
pub open spec fn bottom_row_spec(show: int, len: int, h: int, editing: bool) -> Row {
    if !editing && len - show >= h - 1 {
        Row::Marker
    } else {
        Row::Input
    }
}

/// The rows of the content area, top to bottom: a "more above" marker when
/// lines are scrolled out above, then the visible slice of the log
/// starting at the show-index, then the bottom row.
pub open spec fn spec_rows(show: int, len: int, h: int, editing: bool) -> Seq<Row> {
    let sep: int = if show > 0 {
        1
    } else {
        0
    };
    let cap: int = if h - 1 < len {
        h - 1
    } else {
        len
    };
    let upper: int = if cap < len - show {
        cap
    } else {
        len - show
    };
    let count: int = if upper - sep > 0 {
        upper - sep
    } else {
        0
    };
    (if show > 0 {
        seq![Row::Marker]
    } else {
        Seq::<Row>::empty()
    }) + Seq::new(count as nat, |i: int| Row::Message((show + sep + i) as usize)) + seq![
        bottom_row_spec(show, len, h, editing),
    ]
}

/// Builds the content area's rows.  Every row fits: at most `h` rows come
/// back, and every log index named is in range.
pub fn build_rows(show: usize, len: usize, h: usize, editing: bool) -> (rows: Vec<Row>)
    requires
        h >= 3,
        show <= len,
    ensures
        rows@ =~= spec_rows(show as int, len as int, h as int, editing),
        1 <= rows@.len() <= h,
        forall|k: int|
            0 <= k < rows@.len() ==> (#[trigger] rows@[k] matches Row::Message(m) ==> m < len),
{
    let mut rows: Vec<Row> = Vec::new();
    let sep: usize = if show > 0 {
        1
    } else {
        0
    };
    if show > 0 {
        rows.push(Row::Marker);
    }
    let cap: usize = if h - 1 < len {
        h - 1
    } else {
        len
    };
    let mut i: usize = sep;
    while i < cap && i < len - show
        invariant
            sep <= i,
            i == sep || (i <= cap && i <= len - show),
            sep == (if show > 0 { 1int } else { 0int }),
            cap == (if h - 1 < len { h - 1 } else { len as int }),
            show <= len,
            rows@.len() == i,
            sep == 1 ==> rows@[0] == Row::Marker,
            forall|j: int|
                sep <= j < i ==> rows@[j] == Row::Message((show + j) as usize),
        decreases cap - i,
    {
        rows.push(Row::Message(show + i));
        i = i + 1;
    }
    if !editing && len - show >= h - 1 {
        rows.push(Row::Marker);
    } else {
        rows.push(Row::Input);
    }
    proof {
        let showi = show as int;
        let leni = len as int;
        let hi = h as int;
        let sepi: int = if showi > 0 {
            1
        } else {
            0
        };
        let capi: int = if hi - 1 < leni {
            hi - 1
        } else {
            leni
        };
        let upper: int = if capi < leni - showi {
            capi
        } else {
            leni - showi
        };
        let count: int = if upper - sepi > 0 {
            upper - sepi
        } else {
            0
        };
        assert(i - sepi == count);
        assert(rows@ =~= spec_rows(showi, leni, hi, editing));
    }
    rows
}

/// The screen row on which the cursor is drawn: its offset from the
/// window's top.
pub open spec fn cursor_row_spec(show: int, line: int) -> int {
    if line > show {
        line - show
    } else {
        0
    }
}

/// Computes the cursor's screen row.
pub fn cursor_screen_row(show: usize, line: usize) -> (y: usize)
    ensures
        y == cursor_row_spec(show as int, line as int),
{
    if line > show {
        line - show
    } else {
        0
    }
}

} // verus!
