//! The status channel: a lossy, single-slot broadcaster of transient
//! human-readable state.
//!
//! The slot holds at most one message. Every new message cancels the pending
//! decay of the previous one and starts a fresh fixed-duration timer; when
//! that timer fires the slot clears itself. The cancellation is modelled by
//! a generation counter: a decay event carries the generation of the message
//! whose timer it was, and clears the slot only if that message is still the
//! current one.

use vstd::prelude::*;

verus! {

/// How many seconds a status message stays before its slot clears.
pub const MESSAGE_DURATION_SECS: u64 = 4;

/// The sender side of the status channel. A handle can be moved to other
/// threads; messages set through it queue up, in order, until the owner of
/// the `Status` slot drains them.
#[derive(Debug)]
pub struct StatusHandle {
    pub pending: Vec<String>,
}

impl StatusHandle {
    /// Queue a status message for the slot's owner.
    pub fn set_message(&mut self, status: String)
        ensures
            final(self).pending@ == old(self).pending@.push(status),
    {
        self.pending.push(status);
    }

    /// Hand the queued messages over, in order, leaving the queue empty.
    pub fn take_pending(&mut self) -> (r: Vec<String>)
        ensures
            r@ == old(self).pending@,
            final(self).pending@ == Seq::<String>::empty(),
    {
        let mut drained: Vec<String> = Vec::new();
        core::mem::swap(&mut drained, &mut self.pending);
        drained
    }
}

/// The status slot: the latest transient message, if one is set, and the
/// generation counter that ties each message to its own decay timer.
#[derive(Debug)]
pub struct Status {
    pub last_status_message: Option<String>,
    pub generation: u64,
}

impl Status {
    /// A new, empty status slot.
    pub fn new() -> (r: Status)
        ensures
            r.last_status_message is None,
            r.generation == 0,
    {
        Status { last_status_message: None, generation: 0 }
    }

    /// Set the current status message. The previous message's pending decay
    /// is cancelled: the generation moves on, so a decay event carrying the
    /// old generation no longer clears the slot.
    pub fn set_message(&mut self, status: String)
        requires
            old(self).generation < u64::MAX,
        ensures
            final(self).last_status_message == Some(status),
            final(self).generation == old(self).generation + 1,
    {
        self.last_status_message = Some(status);
        self.generation = self.generation + 1;
    }

    /// The decay timer of the message with generation `g` fired. Clears the
    /// slot only if that message is still the current one; a message set
    /// after the timer started is left untouched.
    pub fn decay(&mut self, g: u64)
        ensures
            g == old(self).generation ==> final(self).last_status_message is None,
            g != old(self).generation ==> *final(self) == *old(self),
            final(self).generation == old(self).generation,
    {
        if g == self.generation {
            self.last_status_message = None;
        }
    }

    /// A handle for setting the status message from another thread.
    pub fn handle(&self) -> (r: StatusHandle)
        ensures
            r.pending@ == Seq::<String>::empty(),
    {
        StatusHandle { pending: Vec::new() }
    }
}

} // verus!
