use obs_openvr::capture::{
    CaptureLoop, LoopState, RateLimiter, StepOutcome, ERROR_LOG_COOLDOWN_MS,
};
use obs_openvr::mirror::capture::{GlCopyResult, OpenVRMirrorCapture};
use obs_openvr::mirror::utils::GlTextureSize;
use obs_openvr::obs::graphics::GraphicsContext;
use obs_openvr::openvr::compositor::{MirrorTextureInfo, MirrorTextureLock};
use obs_openvr::openvr::Eye;

fn small_capture() -> OpenVRMirrorCapture {
    let info = MirrorTextureInfo { id: 3, handle: 0xbeef };
    let size = GlTextureSize { width: 4, height: 2 };
    OpenVRMirrorCapture::new(Eye::Left, Ok((info, size)), 0).expect("acquired")
}

fn frame(byte: u8) -> GlCopyResult {
    GlCopyResult::Frame(vec![byte; 4 * 2 * 4])
}

#[test]
fn lock_depth_returns_to_zero_on_success_and_failure() {
    let mut capture = small_capture();
    let mut lock = MirrorTextureLock::new();
    let mut gfx = GraphicsContext::new();
    let mut lp = CaptureLoop::new(None);
    lp.begin();

    let r = lp.step(&mut capture, &mut lock, &mut gfx, 0, frame(1), true);
    assert_eq!(r, StepOutcome::Copied);
    assert_eq!(lock.depth(), 0);
    assert_eq!(gfx.depth(), 0);

    let r = lp.step(&mut capture, &mut lock, &mut gfx, 10, GlCopyResult::GlError(0x500), true);
    assert!(matches!(r, StepOutcome::CopyFailed { .. }));
    assert_eq!(lock.depth(), 0);
    assert_eq!(gfx.depth(), 0);
    assert_eq!(lp.state(), LoopState::Running);
}

#[test]
fn three_failures_within_one_second_log_once() {
    let mut capture = small_capture();
    let mut lock = MirrorTextureLock::new();
    let mut gfx = GraphicsContext::new();
    let mut lp = CaptureLoop::new(None);
    lp.begin();

    let mut logged_lines = 0;
    for now in [0u64, 300, 600] {
        let r = lp.step(&mut capture, &mut lock, &mut gfx, now, GlCopyResult::GlError(7), true);
        match r {
            StepOutcome::CopyFailed { logged } => {
                if logged {
                    logged_lines += 1;
                }
            }
            other => panic!("expected a failed step, got {:?}", other),
        }
    }
    assert_eq!(logged_lines, 1);

    // After the cooldown has fully passed, the next failure logs again.
    let r = lp.step(
        &mut capture,
        &mut lock,
        &mut gfx,
        ERROR_LOG_COOLDOWN_MS,
        GlCopyResult::GlError(7),
        true,
    );
    assert_eq!(r, StepOutcome::CopyFailed { logged: true });
}

#[test]
fn failed_iteration_keeps_last_good_frame() {
    let mut capture = small_capture();
    let mut lock = MirrorTextureLock::new();
    let mut gfx = GraphicsContext::new();
    let mut lp = CaptureLoop::new(None);
    lp.begin();

    let r = lp.step(&mut capture, &mut lock, &mut gfx, 0, frame(0xaa), true);
    assert_eq!(r, StepOutcome::Copied);
    let good = capture.buffer().clone();

    let r = lp.step(&mut capture, &mut lock, &mut gfx, 5, GlCopyResult::GlError(1), true);
    assert!(matches!(r, StepOutcome::CopyFailed { .. }));
    assert_eq!(capture.buffer(), &good);
    assert!(capture.has_frame());

    let r = lp.step(&mut capture, &mut lock, &mut gfx, 9, GlCopyResult::GlError(2), true);
    assert!(matches!(r, StepOutcome::CopyFailed { .. }));
    assert_eq!(capture.buffer(), &good);
}

#[test]
fn stop_is_observed_at_next_iteration_boundary() {
    let mut capture = small_capture();
    let mut lock = MirrorTextureLock::new();
    let mut gfx = GraphicsContext::new();
    let mut lp = CaptureLoop::new(Some(16));
    assert_eq!(lp.state(), LoopState::Starting);
    assert_eq!(lp.interval(), Some(16));
    lp.begin();
    assert_eq!(lp.state(), LoopState::Running);

    lp.request_stop();
    assert_eq!(lp.state(), LoopState::Stopping);
    assert!(!lp.is_stopped());

    let before = capture.buffer().clone();
    let r = lp.step(&mut capture, &mut lock, &mut gfx, 0, frame(3), true);
    assert_eq!(r, StepOutcome::Exited);
    assert!(lp.is_stopped());
    assert_eq!(lp.state(), LoopState::Stopped);
    // The exiting iteration touched nothing.
    assert_eq!(capture.buffer(), &before);
    assert!(!capture.has_frame());
    assert_eq!(lock.depth(), 0);
}

#[test]
fn errors_never_stop_the_loop() {
    let mut capture = small_capture();
    let mut lock = MirrorTextureLock::new();
    let mut gfx = GraphicsContext::new();
    let mut lp = CaptureLoop::new(None);
    lp.begin();
    for i in 0..20u64 {
        let r = lp.step(&mut capture, &mut lock, &mut gfx, i, GlCopyResult::GlError(9), true);
        assert!(matches!(r, StepOutcome::CopyFailed { .. }));
        assert_eq!(lp.state(), LoopState::Running);
    }
}

#[test]
fn rate_limiter_windows() {
    let mut l = RateLimiter::new(5000);
    assert!(l.note_error(1000));
    assert!(!l.note_error(1001));
    assert!(!l.note_error(5999));
    assert!(l.note_error(6000));
    assert!(!l.note_error(10999));
    assert!(l.note_error(11000));
}

#[test]
fn rate_limiter_zero_cooldown_always_logs() {
    let mut l = RateLimiter::new(0);
    assert!(l.note_error(5));
    assert!(l.note_error(5));
    assert!(l.note_error(6));
}
