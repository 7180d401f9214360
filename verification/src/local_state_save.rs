//! When the shell writes its state to disk: every change asks for a save,
//! a debounce collapses a burst of asks into one write, and nothing is
//! written when no state file was resolved.
use vstd::prelude::*;

verus! {

/// The save bookkeeping of the shell.
#[derive(Clone, Copy, Debug, PartialEq, Eq, Structural)]
pub struct LocalStateSave {
    /// A state file was resolved, so state is written at all.
    pub persisted: bool,
    /// A debounce timer is running and a save follows when it fires.
    pub scheduled: bool,
}

/// Whether asking for a save in state `s` starts a debounce timer.
pub open spec fn request_starts_timer(s: LocalStateSave) -> bool {
    s.persisted && !s.scheduled
}

/// The state after asking for a save in state `s`.
pub open spec fn after_request(s: LocalStateSave) -> LocalStateSave {
    LocalStateSave { persisted: s.persisted, scheduled: s.scheduled || s.persisted }
}

/// How many debounce timers `n` asks in a row start, from state `s`.
pub open spec fn timers_started(s: LocalStateSave, n: nat) -> nat
    decreases n,
{
    if n == 0 {
        0
    } else {
        (if request_starts_timer(s) { 1nat } else { 0nat }) + timers_started(after_request(s), (n - 1) as nat)
    }
}

impl LocalStateSave {
    /// Bookkeeping for a shell that writes its state when `persisted`.
    pub fn new(persisted: bool) -> (s: Self)
        ensures
            s.persisted == persisted,
            !s.scheduled,
    {
        LocalStateSave { persisted, scheduled: false }
    }

    /// Asks for a save; returns whether the caller starts a debounce timer.
    pub fn request(&mut self) -> (start_timer: bool)
        ensures
            start_timer == request_starts_timer(*old(self)),
            *final(self) == after_request(*old(self)),
    {
        if !self.persisted || self.scheduled {
            return false;
        }
        self.scheduled = true;
        true
    }

    /// The debounce timer fired: returns whether the state is written now.
    pub fn timer_fired(&mut self) -> (save_now: bool)
        ensures
            save_now == old(self).persisted,
            final(self).persisted == old(self).persisted,
            !final(self).scheduled,
    {
        self.scheduled = false;
        self.persisted
    }
}

/// A burst of asks for a save, however long, starts at most one debounce
/// timer, and none while one is already running.
pub proof fn lemma_burst_starts_one_timer(s: LocalStateSave, n: nat)
    ensures
        timers_started(s, n) <= 1,
        s.scheduled ==> timers_started(s, n) == 0,
    decreases n,
{
    if n > 0 {
        let t = after_request(s);
        lemma_burst_starts_one_timer(t, (n - 1) as nat);
        if s.persisted {
            assert(t.scheduled);
        } else {
            lemma_unpersisted_starts_none(t, (n - 1) as nat);
        }
    }
}

/// Without a state file no ask starts a timer.
proof fn lemma_unpersisted_starts_none(s: LocalStateSave, n: nat)
    requires
        !s.persisted,
    ensures
        timers_started(s, n) == 0,
    decreases n,
{
    if n > 0 {
        lemma_unpersisted_starts_none(after_request(s), (n - 1) as nat);
    }
}

} // verus!
