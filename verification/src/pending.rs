//! The pending-open slot: a single-slot mailbox carrying at most one
//! externally-opened file path from OS-level open events to the running
//! application.
//!
//! A write unconditionally overwrites whatever was pending; a read atomically
//! consumes the slot, so a path handed over by the operating system is
//! delivered at most once.

use vstd::prelude::*;

verus! {

/// Name of the event emitted towards the front end when the operating system
/// hands the application a file to open.
pub const DOCK_OPEN_FILE_EVENT: &'static str = "dock-open-file";

/// The slot after `set(p)`: `p` is pending, whatever was there before.
pub open spec fn slot_set(s: Option<Seq<char>>, p: Seq<char>) -> Option<Seq<char>> {
    Some(p)
}

/// What `take` returns and leaves behind: the pending value, and an empty
/// slot.
pub open spec fn slot_take(s: Option<Seq<char>>) -> (Option<Seq<char>>, Option<Seq<char>>) {
    (s, None)
}

/// The slot for files opened via the operating system before the front end
/// asked for them.
pub struct PendingFileState {
    slot: Option<String>,
}

impl View for PendingFileState {
    type V = Option<Seq<char>>;

    closed spec fn view(&self) -> Option<Seq<char>> {
        match self.slot {
            Option::Some(ref s) => Some(s@),
            Option::None => None,
        }
    }
}

impl PendingFileState {
    /// An empty slot, the state at startup.
    pub fn new() -> (r: PendingFileState)
        ensures
            r@ is None,
    {
        PendingFileState { slot: None }
    }

    /// Makes `path` the pending file, overwriting any previously pending
    /// value.  The caller signals the front end afterwards so a running
    /// editor can react without polling.
    pub fn set(&mut self, path: String)
        ensures
            final(self)@ == slot_set(old(self)@, path@),
    {
        self.slot = Some(path);
    }

    /// Atomically reads and clears the slot: a second `take` before the next
    /// `set` yields nothing.  Once delivered, a path is not redelivered.
    pub fn take(&mut self) -> (r: Option<String>)
        ensures
            final(self)@ is None,
            r matches Some(p) ==> old(self)@ == Some(p@),
            r is None ==> old(self)@ is None,
    {
        let mut out: Option<String> = None;
        core::mem::swap(&mut self.slot, &mut out);
        out
    }
}

/// The take-once law: after `set(a)` then `set(b)`, a `take` yields `b`, and
/// a second `take` straight after yields nothing.
pub proof fn lemma_slot_take_once(s0: Option<Seq<char>>, a: Seq<char>, b: Seq<char>)
    ensures
        slot_take(slot_set(slot_set(s0, a), b)).0 == Some(b),
        slot_take(slot_take(slot_set(slot_set(s0, a), b)).1).0 is None,
{
}

} // verus!
