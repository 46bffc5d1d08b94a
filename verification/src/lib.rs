//! Verified core of a two-party terminal chat tool.
//!
//! One side opens a TCP connection, the other accepts it; the two exchange
//! display names and then free-text lines, while each renders a scrollable
//! conversation log in a fixed-height terminal window.  This crate holds the
//! parts with real invariants: the append-only message log and its closed
//! flag, the cursor and viewport engine, the mode state machine that
//! dispatches keys, and the handshake / message codec.  The sockets, the
//! terminal, the clipboard and the argument parsing live in the embedding
//! binary, which drives this crate with plain values.

pub mod app;
pub mod cursor;
pub mod message_log;
pub mod mode;
pub mod session;
pub mod text;
pub mod viewport;

use vstd::prelude::*;

verus! {

/// Why a session could not be set up from a handshake exchange.
#[derive(Clone, Copy, PartialEq, Eq, Structural, Debug)]
pub enum SessionError {
    /// The handshake read returned zero bytes: the peer closed before
    /// sending a name.
    EmptyHandshake,
    /// Bytes received from the peer are not valid UTF-8.
    MalformedText,
}

} // verus!
