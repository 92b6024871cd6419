//! The background capture loop: a state machine the capture thread runs,
//! one `step` per iteration, with rate-limited error logging.
//!
//! The loop starts only after the capture context was built, retries copy
//! failures indefinitely, and exits at the first iteration boundary after
//! its owner has requested a stop. The owner then joins the thread, so no
//! capture thread ever outlives its context.

use vstd::prelude::*;

use crate::mirror::capture::{GlCopyResult, OpenVRMirrorCapture, spec_required_buffer_size};
use crate::mirror::utils::TextureFormat;
use crate::obs::graphics::GraphicsContext;
use crate::openvr::compositor::MirrorTextureLock;

verus! {

/// How long, at least, between two logged copy errors of one loop.
pub const ERROR_LOG_COOLDOWN_MS: u64 = 5000;

/// Lifecycle of one capture loop.
#[derive(Debug, Clone, Copy, PartialEq, Eq, Structural)]
pub enum LoopState {
    /// The owning context is being built; no iteration has run.
    Starting,
    /// Iterating: copy, publish, retry on error.
    Running,
    /// The owner requested a stop; the flag has not been observed yet.
    Stopping,
    /// The loop observed the stop flag and exited; it runs no more steps.
    Stopped,
}

/// Limits how often sustained failure may be logged: at most once per
/// cooldown window, so a loop that fails every iteration does not flood
/// the host's log.
pub struct RateLimiter {
    last_logged: Option<u64>,
    cooldown_ms: u64,
}

impl RateLimiter {
    pub closed spec fn spec_last_logged(&self) -> Option<u64> {
        self.last_logged
    }

    pub closed spec fn spec_cooldown_ms(&self) -> u64 {
        self.cooldown_ms
    }

    /// Whether an error arriving at `now_ms` gets logged: always on the
    /// first error, afterwards only once the cooldown has passed.
    pub open spec fn spec_should_log(&self, now_ms: u64) -> bool {
        match self.spec_last_logged() {
            None => true,
            Some(t) => now_ms - t >= self.spec_cooldown_ms(),
        }
    }

    pub fn new(cooldown_ms: u64) -> (r: RateLimiter)
        ensures
            r.spec_last_logged() is None,
            r.spec_cooldown_ms() == cooldown_ms,
    {
        RateLimiter { last_logged: None, cooldown_ms }
    }

    /// How the limiter looks after noting one error at `now_ms`: the
    /// cooldown is untouched, and the window restarts exactly when the
    /// error was logged.
    pub open spec fn spec_noted(self, new: RateLimiter, now_ms: u64) -> bool {
        &&& new.spec_cooldown_ms() == self.spec_cooldown_ms()
        &&& if self.spec_should_log(now_ms) {
            new.spec_last_logged() == Some(now_ms)
        } else {
            new.spec_last_logged() == self.spec_last_logged()
        }
    }

    /// Records one error at `now_ms` and decides whether to log it; a
    /// logged error starts a fresh cooldown window, a suppressed one
    /// leaves the window as it was.
    pub fn note_error(&mut self, now_ms: u64) -> (logged: bool)
        ensures
            logged == old(self).spec_should_log(now_ms),
            old(self).spec_noted(*final(self), now_ms),
    {
        let should = match self.last_logged {
            None => true,
            Some(t) => now_ms >= t && now_ms - t >= self.cooldown_ms,
        };
        if should {
            self.last_logged = Some(now_ms);
        }
        should
    }
}

/// What one loop iteration did.
#[derive(Debug, Clone, Copy, PartialEq, Eq, Structural)]
pub enum StepOutcome {
    /// The stop flag was observed; the loop exited without touching the
    /// capture context.
    Exited,
    /// The frame was copied and published.
    Copied,
    /// The iteration failed; `logged` says whether the rate limiter let
    /// the error through to the log.
    CopyFailed { logged: bool },
}

/// The capture loop's own state: its lifecycle, the optional fixed pause
/// between iterations, and the error-log rate limiter. The capture thread
/// owns it; the owning context only ever raises the stop flag.
pub struct CaptureLoop {
    state: LoopState,
    interval_ms: Option<u64>,
    limiter: RateLimiter,
}

impl CaptureLoop {
    pub closed spec fn spec_state(&self) -> LoopState {
        self.state
    }

    pub closed spec fn spec_interval_ms(&self) -> Option<u64> {
        self.interval_ms
    }

    pub closed spec fn spec_limiter(&self) -> RateLimiter {
        self.limiter
    }

    /// A loop about to be started, with an optional inter-iteration pause
    /// in milliseconds; absent one, the loop runs as fast as the copy
    /// itself allows.
    pub fn new(interval_ms: Option<u64>) -> (r: CaptureLoop)
        ensures
            r.spec_state() == LoopState::Starting,
            r.spec_interval_ms() == interval_ms,
            r.spec_limiter().spec_last_logged() is None,
            r.spec_limiter().spec_cooldown_ms() == ERROR_LOG_COOLDOWN_MS,
    {
        CaptureLoop { state: LoopState::Starting, interval_ms, limiter: RateLimiter::new(ERROR_LOG_COOLDOWN_MS) }
    }

    pub fn state(&self) -> (r: LoopState)
        ensures
            r == self.spec_state(),
    {
        self.state
    }

    pub fn interval(&self) -> (r: Option<u64>)
        ensures
            r == self.spec_interval_ms(),
    {
        self.interval_ms
    }

    pub fn is_stopped(&self) -> (r: bool)
        ensures
            r == (self.spec_state() == LoopState::Stopped),
    {
        match self.state {
            LoopState::Stopped => true,
            _ => false,
        }
    }

    /// Enters the running state once the capture context was built. A
    /// context whose acquisition failed never gets here: no loop starts.
    pub fn begin(&mut self)
        requires
            old(self).spec_state() == LoopState::Starting,
        ensures
            final(self).spec_state() == LoopState::Running,
            final(self).spec_interval_ms() == old(self).spec_interval_ms(),
            final(self).spec_limiter() == old(self).spec_limiter(),
    {
        self.state = LoopState::Running;
    }

    /// Raises the stop flag. The owner calls this when the context is
    /// dropped or replaced; the loop observes it at the top of its next
    /// iteration, so cancellation takes effect at an iteration boundary.
    pub fn request_stop(&mut self)
        requires
            old(self).spec_state() == LoopState::Running || old(self).spec_state()
                == LoopState::Stopping,
        ensures
            final(self).spec_state() == LoopState::Stopping,
            final(self).spec_interval_ms() == old(self).spec_interval_ms(),
            final(self).spec_limiter() == old(self).spec_limiter(),
    {
        self.state = LoopState::Stopping;
    }

    /// One loop iteration. At the top it checks the stop flag and exits
    /// if raised, leaving the capture context untouched. Otherwise it
    /// enters the host's graphics critical section, takes the shared-
    /// texture lock around exactly the copy commit, publishes a successful
    /// frame, and lets the rate limiter decide whether a failure gets
    /// logged. The lock is back at depth zero on every exit path, and an
    /// error never leaves the running state: failures are retried forever.
    pub fn step(
        &mut self,
        capture: &mut OpenVRMirrorCapture,
        lock: &mut MirrorTextureLock,
        gfx: &mut GraphicsContext,
        now_ms: u64,
        copy: GlCopyResult,
        alloc_ok: bool,
    ) -> (r: StepOutcome)
        requires
            old(self).spec_state() == LoopState::Running || old(self).spec_state()
                == LoopState::Stopping,
            old(capture).wf(),
            old(lock).spec_depth() == 0,
            old(gfx).spec_depth() < u32::MAX,
            copy matches GlCopyResult::Frame(f) ==> f@.len() == spec_required_buffer_size(
                old(capture).spec_dimensions(),
                old(capture).spec_format(),
            ),
            copy matches GlCopyResult::GlError(c) ==> c != 0,
        ensures
            final(capture).wf(),
            final(capture).same_config(old(capture)),
            final(lock).spec_depth() == 0,
            final(gfx).spec_depth() == old(gfx).spec_depth(),
            final(self).spec_interval_ms() == old(self).spec_interval_ms(),
            old(self).spec_state() == LoopState::Stopping ==> {
                &&& final(self).spec_state() == LoopState::Stopped
                &&& r == StepOutcome::Exited
                &&& *final(capture) == *old(capture)
                &&& final(self).spec_limiter() == old(self).spec_limiter()
            },
            old(self).spec_state() == LoopState::Running ==> {
                &&& final(self).spec_state() == LoopState::Running
                &&& (copy matches GlCopyResult::GlError(code) ==> {
                    &&& final(capture).spec_buffer() == old(capture).spec_buffer()
                    &&& final(capture).spec_has_frame() == old(capture).spec_has_frame()
                    &&& final(capture).spec_texture() == old(capture).spec_texture()
                    &&& r == (StepOutcome::CopyFailed {
                        logged: old(self).spec_limiter().spec_should_log(now_ms),
                    })
                    &&& old(self).spec_limiter().spec_noted(final(self).spec_limiter(), now_ms)
                })
                &&& (copy matches GlCopyResult::Frame(f) ==> {
                    &&& final(capture).spec_buffer() == f@
                    &&& final(capture).spec_has_frame()
                    &&& (old(capture).spec_format() == TextureFormat::Rgba && (old(
                        capture,
                    ).spec_texture() is Some || alloc_ok) ==> (r == StepOutcome::Copied && (final(
                        capture).spec_texture() matches Some(t) && t.spec_image() == f@) && final(
                        self).spec_limiter() == old(self).spec_limiter()))
                    &&& (!(old(capture).spec_format() == TextureFormat::Rgba && (old(
                        capture,
                    ).spec_texture() is Some || alloc_ok)) ==> (r == (StepOutcome::CopyFailed {
                        logged: old(self).spec_limiter().spec_should_log(now_ms),
                    }) && old(self).spec_limiter().spec_noted(final(self).spec_limiter(), now_ms)))
                })
            },
    {
        if let LoopState::Stopping = self.state {
            self.state = LoopState::Stopped;
            return StepOutcome::Exited;
        }
        gfx.enter_graphics();
        lock.acquire(capture.texture_info_handle());
        let copied = capture.commit_frame(copy);
        lock.release();
        let outcome = match copied {
            Ok(()) => match capture.publish_texture(alloc_ok) {
                Ok(()) => StepOutcome::Copied,
                Err(_) => StepOutcome::CopyFailed { logged: self.limiter.note_error(now_ms) },
            },
            Err(_) => StepOutcome::CopyFailed { logged: self.limiter.note_error(now_ms) },
        };
        gfx.leave_graphics();
        outcome
    }
}

} // verus!
