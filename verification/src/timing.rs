//! A small stopwatch over the host's monotonic clock.
//!
//! The clock itself lives with the host; every reading is handed in as a
//! millisecond timestamp (`now_ms`). Readings taken earlier than the
//! recorded instants yield zero elapsed time, never an underflow, the way
//! a saturating monotonic-clock difference does.

use vstd::prelude::*;

verus! {

/// A start instant and an optional later checkpoint, both in
/// milliseconds of the host's monotonic clock.
#[derive(Debug, Clone, Copy, PartialEq, Eq, Structural)]
pub struct Timer {
    start: u64,
    checkpoint: Option<u64>,
}

/// Saturating difference of two clock readings, in milliseconds.
pub open spec fn spec_elapsed_since(now_ms: u64, then_ms: u64) -> u64 {
    if now_ms >= then_ms {
        (now_ms - then_ms) as u64
    } else {
        0u64
    }
}

impl Timer {
    pub closed spec fn spec_start(&self) -> u64 {
        self.start
    }

    pub closed spec fn spec_checkpoint(&self) -> Option<u64> {
        self.checkpoint
    }

    /// The instant the last checkpoint was taken, or the start while none
    /// has been.
    pub open spec fn spec_last_checkpoint(&self) -> u64 {
        match self.spec_checkpoint() {
            Some(t) => t,
            None => self.spec_start(),
        }
    }

    /// A timer started at `now_ms`, with no checkpoint yet.
    pub fn new(now_ms: u64) -> (r: Timer)
        ensures
            r.spec_start() == now_ms,
            r.spec_checkpoint() is None,
    {
        Timer { start: now_ms, checkpoint: None }
    }

    pub fn start_time(&self) -> (r: u64)
        ensures
            r == self.spec_start(),
    {
        self.start
    }

    pub fn last_checkpoint(&self) -> (r: u64)
        ensures
            r == self.spec_last_checkpoint(),
    {
        match self.checkpoint {
            Some(t) => t,
            None => self.start,
        }
    }

    /// Milliseconds since the last checkpoint (or the start).
    pub fn elapsed_checkpoint(&self, now_ms: u64) -> (r: u64)
        ensures
            r == spec_elapsed_since(now_ms, self.spec_last_checkpoint()),
    {
        let then = self.last_checkpoint();
        if now_ms >= then {
            now_ms - then
        } else {
            0
        }
    }

    /// Takes a checkpoint at `now_ms`, returning how long the span since
    /// the previous checkpoint (or the start) lasted.
    pub fn checkpoint(&mut self, now_ms: u64) -> (r: u64)
        ensures
            r == spec_elapsed_since(now_ms, old(self).spec_last_checkpoint()),
            final(self).spec_start() == old(self).spec_start(),
            final(self).spec_checkpoint() == Some(now_ms),
    {
        let ret = self.elapsed_checkpoint(now_ms);
        self.checkpoint = Some(now_ms);
        ret
    }

    /// Moves the start to `now_ms`; any checkpoint stays where it was.
    pub fn reset(&mut self, now_ms: u64)
        ensures
            final(self).spec_start() == now_ms,
            final(self).spec_checkpoint() == old(self).spec_checkpoint(),
    {
        self.start = now_ms;
    }

    /// Milliseconds since the start.
    pub fn elapsed(&self, now_ms: u64) -> (r: u64)
        ensures
            r == spec_elapsed_since(now_ms, self.spec_start()),
    {
        if now_ms >= self.start {
            now_ms - self.start
        } else {
            0
        }
    }

    /// `elapsed`, widened for callers that count in the host's wider
    /// millisecond type.
    pub fn elapsed_ms(&self, now_ms: u64) -> (r: u128)
        ensures
            r == spec_elapsed_since(now_ms, self.spec_start()) as u128,
    {
        self.elapsed(now_ms) as u128
    }
}

/// Checkpointing as the host's logging glue uses it.
pub trait TimerExt {
    fn log_checkpoint_ms(&mut self, now_ms: u64) -> u64;
}

impl TimerExt for Timer {
    /// Takes a checkpoint and hands back the span's length for the host
    /// to log beside the checkpoint's name.
    fn log_checkpoint_ms(&mut self, now_ms: u64) -> (r: u64)
        ensures
            r == spec_elapsed_since(now_ms, old(self).spec_last_checkpoint()),
            final(self).spec_start() == old(self).spec_start(),
            final(self).spec_checkpoint() == Some(now_ms),
    {
        self.checkpoint(now_ms)
    }
}

} // verus!
