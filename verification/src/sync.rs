//! Generations of background sync work, and the messages that workers send
//! back stamped with the generation they were started in.
use vstd::prelude::*;

use std::sync::mpsc::Sender;

use crate::text::{chars_equal, chars_of};

verus! {

/// The generation of sync work: advanced whenever running work becomes
/// stale (the active profile changed, the user signed out).
#[derive(Clone, Copy, Debug, PartialEq, Eq, Structural)]
pub struct SyncWorkGeneration(pub u64);

impl Default for SyncWorkGeneration {
    fn default() -> (generation: Self)
        ensures
            generation.0 == 0,
    {
        SyncWorkGeneration(0)
    }
}

/// The generation after `generation`, wrapping at the largest value.
pub open spec fn next_generation(generation: u64) -> u64 {
    if generation == u64::MAX {
        0
    } else {
        (generation + 1) as u64
    }
}

/// The generation after advancing `steps` times from `generation`.
pub open spec fn advanced_by(generation: u64, steps: nat) -> u64
    decreases steps,
{
    if steps == 0 {
        generation
    } else {
        next_generation(advanced_by(generation, (steps - 1) as nat))
    }
}

impl SyncWorkGeneration {
    /// Moves to the next generation, so that work of the current one becomes stale.
    pub fn advance(&mut self)
        ensures
            final(self).0 == next_generation(old(self).0),
    {
        self.0 = self.0.wrapping_add(1);
    }
}

/// Advancing never stays on the same generation.
pub proof fn lemma_advance_changes_generation(generation: u64)
    ensures
        next_generation(generation) != generation,
{
}

/// Advancing moves forward by one modulo `2^64`.
proof fn lemma_advanced_by_value(generation: u64, steps: nat)
    ensures
        advanced_by(generation, steps) as int == (generation + steps) % 0x1_0000_0000_0000_0000,
    decreases steps,
{
    if steps > 0 {
        lemma_advanced_by_value(generation, (steps - 1) as nat);
        let prev = advanced_by(generation, (steps - 1) as nat);
        let m: int = 0x1_0000_0000_0000_0000;
        assert((prev as int + 1) % m == (generation + steps) % m) by {
            vstd::arithmetic::div_mod::lemma_add_mod_noop(generation + steps - 1, 1, m);
            vstd::arithmetic::div_mod::lemma_small_mod(1, m as nat);
            vstd::arithmetic::div_mod::lemma_mod_twice(generation + steps - 1, m);
            vstd::arithmetic::div_mod::lemma_add_mod_noop(prev as int, 1, m);
            vstd::arithmetic::div_mod::lemma_small_mod(prev as nat, m as nat);
        }
        if prev == u64::MAX {
            vstd::arithmetic::div_mod::lemma_mod_self_0(m);
        } else {
            vstd::arithmetic::div_mod::lemma_small_mod((prev + 1) as nat, m as nat);
        }
    }
}

/// Work started in one generation stays stale however often the generation
/// moves on afterwards (profile A, then B, then A again), until the counter
/// has gone all the way round.
pub proof fn lemma_old_generation_stays_stale(generation: u64, steps: nat)
    requires
        0 < steps < 0x1_0000_0000_0000_0000,
    ensures
        advanced_by(generation, steps) != generation,
{
    lemma_advanced_by_value(generation, steps);
    let m: int = 0x1_0000_0000_0000_0000;
    if advanced_by(generation, steps) == generation {
        assert((generation + steps) % m == generation as int);
        vstd::arithmetic::div_mod::lemma_fundamental_div_mod(generation + steps, m);
        let q = (generation + steps) / m;
        assert(generation + steps == m * q + generation);
        assert(steps == m * q);
        assert(false) by (nonlinear_arith)
            requires
                steps == m * q,
                0 < steps < m,
        ;
    }
}

/// A message from a sync worker: what happened, and in which generation of
/// sync work the worker was started.
#[derive(Clone, Debug)]
pub struct SyncStateMessage<U> {
    pub generation: SyncWorkGeneration,
    pub update: U,
}

impl<U> SyncStateMessage<U> {
    /// Whether the message comes from work of `generation`; other messages are stale.
    pub fn belongs_to(&self, generation: SyncWorkGeneration) -> (current: bool)
        ensures
            current == (self.generation.0 == generation.0),
    {
        self.generation.0 == generation.0
    }
}

/// The sending end that a sync worker gets: it stamps every message with
/// the generation the worker was started in.
#[derive(Debug)]
#[verifier::reject_recursive_types(U)]
pub struct SyncStateSender<U> {
    pub generation: SyncWorkGeneration,
    pub sender: Sender<SyncStateMessage<U>>,
}

#[verifier::external_type_specification]
#[verifier::external_body]
#[verifier::reject_recursive_types(T)]
pub struct ExSender<T>(Sender<T>);

/// `Sender::send`, with the error's message moved out of `SendError`.
/// Whether the send succeeds depends on whether the receiver still exists,
/// so success is not claimed; the standard library documents that a failed
/// send hands the unsent value back in the error, and that is claimed.
#[verifier::external_body]
fn send_on_channel<T>(sender: &Sender<T>, message: T) -> (sent: Result<(), T>)
    ensures
        sent matches Err(unsent) ==> unsent == message,
{
    sender.send(message).map_err(|error| error.0)
}

impl<U> SyncStateSender<U> {
    /// A sender that stamps messages with `generation`.
    pub fn new(generation: SyncWorkGeneration, sender: Sender<SyncStateMessage<U>>) -> (s: Self)
        ensures
            s.generation == generation,
    {
        SyncStateSender { generation, sender }
    }

    /// The message that carries `update`, stamped with this sender's generation.
    pub fn message_for(&self, update: U) -> (message: SyncStateMessage<U>)
        ensures
            message.generation == self.generation,
            message.update == update,
    {
        SyncStateMessage { generation: self.generation, update }
    }

    /// Sends `update`, stamped with this sender's generation. When the
    /// receiving end is gone the stamped message comes back as the error.
    pub fn send(&self, update: U) -> (sent: Result<(), SyncStateMessage<U>>)
        ensures
            sent matches Err(unsent) ==> unsent.generation == self.generation && unsent.update
                == update,
    {
        send_on_channel(&self.sender, self.message_for(update))
    }
}

/// The platform name that device registration reports for the target
/// operating system `target_os`.
pub fn sync_platform_label(target_os: &str) -> (label: &'static str)
    ensures
        label@ == if target_os@ == "macos"@ {
            "macos"@
        } else if target_os@ == "windows"@ {
            "windows"@
        } else if target_os@ == "linux"@ {
            "linux"@
        } else {
            "other"@
        },
{
    let os = chars_of(target_os);
    if chars_equal(&os, &chars_of("macos")) {
        "macos"
    } else if chars_equal(&os, &chars_of("windows")) {
        "windows"
    } else if chars_equal(&os, &chars_of("linux")) {
        "linux"
    } else {
        "other"
    }
}

} // verus!
