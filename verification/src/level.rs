//! The latest-value channel carrying one scalar measurement from the
//! producer (the audio engine) to any number of readers (render passes).
//!
//! The cell holds an indivisible 32-bit payload, so a reader always sees
//! exactly one previously published value, never a mixture of two. There is
//! no queue and no backpressure: a publish overwrites the payload
//! unconditionally, and values between two reads are lost by design. The
//! model here is the sequential content of the cell; the process boundary
//! that shares it between threads is the caller's concern.

use vstd::prelude::*;

verus! {

/// Payload a reader sees before the producer has published anything:
/// silence.
pub const SILENCE: u32 = 0;

/// The cell's state after a publish: the new payload, whatever was there
/// before.
pub open spec fn level_after_publish(state: u32, payload: u32) -> u32 {
    payload
}

/// What a read returns: the payload as published, unchanged.
pub open spec fn level_read(state: u32) -> u32 {
    state
}

/// Single-writer, multi-reader published scalar. `publish` overwrites the
/// payload and never fails; `read` returns the latest payload and never
/// fails. The payload is opaque to the cell: callers choose its meaning
/// (for instance the bit pattern of a linear magnitude).
pub struct AtomicLevel {
    payload: u32,
}

impl View for AtomicLevel {
    type V = u32;

    /// The abstract state: the latest published payload.
    closed spec fn view(&self) -> u32 {
        self.payload
    }
}

impl AtomicLevel {
    /// A fresh cell holds the defined default, never an arbitrary value.
    pub fn new() -> (cell: Self)
        ensures
            cell@ == SILENCE,
    {
        AtomicLevel { payload: SILENCE }
    }

    /// Overwrites the published payload unconditionally.
    pub fn publish(&mut self, payload: u32)
        ensures
            final(self)@ == level_after_publish(old(self)@, payload),
    {
        self.payload = payload;
    }

    /// Returns the latest published payload (or the default, if nothing was
    /// published yet).
    pub fn read(&self) -> (payload: u32)
        ensures
            payload == level_read(self@),
    {
        self.payload
    }
}

/// Law (no tearing): a read returns exactly one previously published value —
/// the latest — or the initial default on a fresh cell; never a mixture.
pub proof fn lemma_no_tearing(state: u32, payload: u32)
    ensures
        level_read(level_after_publish(state, payload)) == payload,
        level_read(SILENCE) == SILENCE,
{
}

/// Law (latest wins): when two publishes complete before a read, the read
/// returns the second value, never the first.
pub proof fn lemma_latest_wins(state: u32, first: u32, second: u32)
    ensures
        level_read(level_after_publish(level_after_publish(state, first), second)) == second,
{
}

} // verus!
