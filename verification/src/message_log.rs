//! The conversation log and the session's closed flag.
//!
//! `MessageLog` is an append-only ordered sequence of rendered lines
//! ("sender: text").  Indices are stable: lines are never reordered or
//! removed, so an index handed out once refers to the same content forever.
//! The embedding binary shares one log between the event loop and the
//! background receiver by putting it behind a lock; every operation here is
//! a single read or append under that lock.

use vstd::prelude::*;

verus! {

/// An append-only ordered sequence of rendered chat lines.
pub struct MessageLog {
    lines: Vec<String>,
}

impl MessageLog {
    /// The log viewed as a sequence of character sequences, in insertion
    /// order, which is conversation order.
    pub closed spec fn view(&self) -> Seq<Seq<char>> {
        self.lines@.map(|i: int, s: String| s@)
    }

    /// An empty log.
    pub fn new() -> (log: MessageLog)
        ensures
            log@ =~= Seq::<Seq<char>>::empty(),
    {
        MessageLog { lines: Vec::new() }
    }

    /// How many lines the log holds.
    pub fn len(&self) -> (n: usize)
        ensures
            n == self@.len(),
    {
        self.lines.len()
    }

    /// Appends one line at the end; no existing line moves or changes.
    pub fn append(&mut self, line: String)
        ensures
            final(self)@ =~= old(self)@.push(line@),
    {
        self.lines.push(line);
    }

    /// The line at index `i`.
    pub fn line(&self, i: usize) -> (line: &String)
        requires
            i < self@.len(),
        ensures
            line@ == self@[i as int],
    {
        &self.lines[i]
    }

    /// A point-in-time copy of the whole log, taken under the caller's lock.
    pub fn snapshot(&self) -> (copy: Vec<String>)
        ensures
            copy@.map(|i: int, s: String| s@) =~= self@,
    {
        let mut copy: Vec<String> = Vec::new();
        let mut i: usize = 0;
        while i < self.lines.len()
            invariant
                i <= self.lines.len(),
                copy@.len() == i,
                forall|j: int| 0 <= j < i ==> copy@[j]@ == self@[j],
            decreases self.lines.len() - i,
        {
            copy.push(self.lines[i].clone());
            i = i + 1;
        }
        copy
    }
}

/// Law: appending is append-only.  The length grows by exactly one and every
/// index handed out before still names the same content afterwards.
pub proof fn lemma_log_append_only(log: Seq<Seq<char>>, line: Seq<char>)
    ensures
        log.push(line).len() == log.len() + 1,
        forall|i: int| 0 <= i < log.len() ==> log.push(line)[i] == log[i],
{
}

/// The shared "session is over" flag: written once to true, read by the
/// event loop on every poll cycle.  Either the user's quit action or the
/// receiver observing a disconnect sets it.
pub struct ClosedFlag {
    closed: bool,
}

impl ClosedFlag {
    /// Whether the session has been marked closed.
    pub closed spec fn is_closed(&self) -> bool {
        self.closed
    }

    /// A fresh, still-open flag.
    pub fn new() -> (flag: ClosedFlag)
        ensures
            !flag.is_closed(),
    {
        ClosedFlag { closed: false }
    }

    /// Marks the session closed; there is no way back to open.
    pub fn set(&mut self)
        ensures
            final(self).is_closed(),
    {
        self.closed = true;
    }

    /// Reads the flag.
    pub fn get(&self) -> (b: bool)
        ensures
            b == self.is_closed(),
    {
        self.closed
    }
}

} // verus!
