use obs_openvr::capture::{CaptureLoop, StepOutcome};
use obs_openvr::mirror::capture::{
    CopyTextureError, GlCopyResult, OpenVRMirrorCapture, TextureCreationError,
};
use obs_openvr::mirror::utils::{GlTextureSize, TextureFormat};
use obs_openvr::mirror::{get_eye, OpenVRMirrorSource, OpenVRMirrorSourceSettings};
use obs_openvr::obs::graphics::{GraphicsContext, GsColorFormat};
use obs_openvr::openvr::compositor::{MirrorTextureInfo, MirrorTextureLock};
use obs_openvr::openvr::error_ext::CompositorError;
use obs_openvr::openvr::Eye;

type Acquisition = Result<(MirrorTextureInfo, GlTextureSize), CompositorError>;

fn acquisition(w: i32, h: i32) -> Acquisition {
    Ok((MirrorTextureInfo { id: 11, handle: 0x77 }, GlTextureSize { width: w, height: h }))
}

fn frame_for(w: i32, h: i32, byte: u8) -> GlCopyResult {
    GlCopyResult::Frame(vec![byte; (w * h * 4) as usize])
}

#[test]
fn eye_setting_parses_left_right_and_defaults() {
    assert_eq!(get_eye(Some("left")), Eye::Left);
    assert_eq!(get_eye(Some("right")), Eye::Right);
    assert_eq!(get_eye(Some("sideways")), Eye::Left);
    assert_eq!(get_eye(Some("")), Eye::Left);
    assert_eq!(get_eye(Some("Right")), Eye::Left);
    assert_eq!(get_eye(None), Eye::Left);
}

#[test]
fn settings_update_rereads_the_eye() {
    let mut s = OpenVRMirrorSourceSettings::from_value(Some("left"));
    assert_eq!(s.eye(), Eye::Left);
    s.update(Some("right"));
    assert_eq!(s.eye(), Eye::Right);
    s.update(Some("nonsense"));
    assert_eq!(s.eye(), Eye::Left);
}

#[test]
fn source_dimensions_follow_the_context() {
    let source = OpenVRMirrorSource::new(Some("left"), acquisition(640, 480), 0);
    assert_eq!(source.get_dimensions(), (640, 480));

    let source = OpenVRMirrorSource::new(Some("left"), Err(CompositorError(14)), 0);
    assert_eq!(source.get_dimensions(), (0, 0));
}

#[test]
fn scenario_eye_change_swaps_context_after_joining_old_loop() {
    // The old context's loop, as its capture thread would drive it.
    let mut old_capture =
        OpenVRMirrorCapture::new(Eye::Left, acquisition(8, 8), 0).expect("acquired");
    let mut lock = MirrorTextureLock::new();
    let mut gfx = GraphicsContext::new();
    let mut old_loop = CaptureLoop::new(None);
    old_loop.begin();
    let r = old_loop.step(&mut old_capture, &mut lock, &mut gfx, 0, frame_for(8, 8, 1), true);
    assert_eq!(r, StepOutcome::Copied);

    let mut source = OpenVRMirrorSource::new(Some("left"), acquisition(8, 8), 0);
    assert_eq!(source.settings().eye(), Eye::Left);

    // The eye changes: stop the old loop and join it (the step that
    // observes the flag is the loop's last), then swap the context.
    old_loop.request_stop();
    let r = old_loop.step(&mut old_capture, &mut lock, &mut gfx, 1, frame_for(8, 8, 2), true);
    assert_eq!(r, StepOutcome::Exited);
    assert!(old_loop.is_stopped());

    source.update(Some("right"), acquisition(8, 8), 0);
    assert_eq!(source.settings().eye(), Eye::Right);

    // Only now does the new context's loop start producing frames.
    let mut new_loop = CaptureLoop::new(None);
    new_loop.begin();
    let mut tick_lock = MirrorTextureLock::new();
    let r = source.video_tick(true, &mut tick_lock, &mut gfx, frame_for(8, 8, 3), true);
    assert_eq!(r, Some(Ok(())));
}

#[test]
fn scenario_render_before_first_copy_draws_nothing() {
    let mut source = OpenVRMirrorSource::new(Some("left"), acquisition(16, 16), 0);
    let mut gfx = GraphicsContext::new();
    // No copy has succeeded yet: the render callback skips the frame.
    assert_eq!(source.video_render(&mut gfx, true), None);

    // A failed copy changes nothing about that.
    let mut lock = MirrorTextureLock::new();
    let r = source.video_tick(true, &mut lock, &mut gfx, GlCopyResult::GlError(2), true);
    assert_eq!(r, Some(Err(CopyTextureError::Gl(2))));
    assert_eq!(source.video_render(&mut gfx, true), None);

    // After the first successful copy the draw happens, at the context's
    // dimensions.
    let r = source.video_tick(true, &mut lock, &mut gfx, frame_for(16, 16, 5), true);
    assert_eq!(r, Some(Ok(())));
    assert_eq!(source.video_render(&mut gfx, true), Some((16, 16)));
}

#[test]
fn render_without_context_draws_nothing() {
    let mut source = OpenVRMirrorSource::new(Some("right"), Err(CompositorError(3)), 0);
    let mut gfx = GraphicsContext::new();
    assert_eq!(source.video_render(&mut gfx, true), None);
}

#[test]
fn tick_skips_when_not_showing() {
    let mut source = OpenVRMirrorSource::new(Some("left"), acquisition(4, 4), 0);
    let mut lock = MirrorTextureLock::new();
    let mut gfx = GraphicsContext::new();
    let r = source.video_tick(false, &mut lock, &mut gfx, frame_for(4, 4, 1), true);
    assert_eq!(r, None);
    assert_eq!(source.video_render(&mut gfx, true), None);
}

#[test]
fn copy_error_codes_surface_as_gl_errors() {
    let mut capture =
        OpenVRMirrorCapture::new(Eye::Left, acquisition(2, 2), 0).expect("acquired");
    let r = capture.copy_texture(GlCopyResult::GlError(0x502), true);
    assert_eq!(r, Err(CopyTextureError::Gl(0x502)));
    assert!(!capture.has_frame());
    assert!(capture.texture().is_none());
}

#[test]
fn declined_allocation_is_a_texture_creation_error() {
    let mut capture =
        OpenVRMirrorCapture::new(Eye::Left, acquisition(2, 2), 0).expect("acquired");
    let r = capture.copy_texture(frame_for(2, 2, 1), false);
    assert_eq!(
        r,
        Err(CopyTextureError::TextureCreation(TextureCreationError::TextureAllocation))
    );
    // The frame itself was still committed.
    assert!(capture.has_frame());
    assert_eq!(capture.buffer(), &vec![1u8; 16]);

    // Once the texture exists, later copies update it in place and no
    // further allocation is needed.
    let r = capture.copy_texture(frame_for(2, 2, 2), true);
    assert_eq!(r, Ok(()));
    let r = capture.copy_texture(frame_for(2, 2, 3), false);
    assert_eq!(r, Ok(()));
    let t = capture.texture().expect("texture cached");
    assert_eq!(t.get_dimensions(), (2, 2));
    assert_eq!(t.image_len(), 16);
}

#[test]
fn rgb_capture_fails_cleanly_at_the_host_boundary() {
    let mut capture = OpenVRMirrorCapture::new_with_format(
        Eye::Left,
        acquisition(2, 2),
        TextureFormat::Rgb,
        0,
    )
    .expect("acquired");
    assert_eq!(capture.required_buffer_size(), 12);

    let rgb_frame = GlCopyResult::Frame(vec![6u8; 12]);
    let r = capture.copy_texture(rgb_frame, true);
    assert_eq!(
        r,
        Err(CopyTextureError::TextureCreation(TextureCreationError::FormatTranslation(
            TextureFormat::Rgb
        )))
    );
    // The copy into the buffer still succeeded; only publishing failed.
    assert!(capture.has_frame());
    assert_eq!(capture.buffer(), &vec![6u8; 12]);
    assert!(capture.texture().is_none());
}

#[test]
fn format_translation_targets() {
    assert_eq!(TextureFormat::Rgba.to_gs_format(), Some(GsColorFormat::Rgba));
    assert_eq!(TextureFormat::Rgb.to_gs_format(), None);
    assert_eq!(TextureFormat::Rgb.gl_code(), 0x1907);
    assert_eq!(TextureFormat::Rgba.gl_code(), 0x1908);
}
