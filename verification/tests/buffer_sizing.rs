use obs_openvr::mirror::capture::{
    required_buffer_size, GlCopyResult, OpenVRMirrorCapture,
};
use obs_openvr::mirror::utils::{GlTextureSize, TextureFormat};
use obs_openvr::openvr::compositor::MirrorTextureInfo;
use obs_openvr::openvr::error_ext::CompositorError;
use obs_openvr::openvr::Eye;

fn live_info() -> MirrorTextureInfo {
    MirrorTextureInfo { id: 7, handle: 0x5000 }
}

#[test]
fn required_buffer_size_formula() {
    assert_eq!(required_buffer_size((0, 0), TextureFormat::Rgba), 0);
    assert_eq!(required_buffer_size((1, 1), TextureFormat::Rgb), 3);
    assert_eq!(required_buffer_size((1, 1), TextureFormat::Rgba), 4);
    assert_eq!(required_buffer_size((640, 480), TextureFormat::Rgba), 640 * 480 * 4);
    assert_eq!(required_buffer_size((640, 480), TextureFormat::Rgb), 640 * 480 * 3);
    assert_eq!(required_buffer_size((1920, 0), TextureFormat::Rgba), 0);
}

#[test]
fn bytes_per_pixel_values() {
    assert_eq!(TextureFormat::Rgb.bytes_per_pixel(), 3);
    assert_eq!(TextureFormat::Rgba.bytes_per_pixel(), 4);
}

#[test]
fn scenario_left_eye_full_size_buffer() {
    let size = GlTextureSize { width: 2468, height: 2740 };
    let mut capture =
        OpenVRMirrorCapture::new(Eye::Left, Ok((live_info(), size)), 0).expect("acquired");
    assert_eq!(capture.eye(), Eye::Left);
    assert_eq!(capture.format(), TextureFormat::Rgba);
    assert_eq!(capture.required_buffer_size(), 27_049_280);
    assert_eq!(capture.buffer().len(), 27_049_280);
    assert!(!capture.has_frame());

    let frame = vec![9u8; 27_049_280];
    let r = capture.copy_texture(GlCopyResult::Frame(frame), true);
    assert!(r.is_ok());
    assert!(capture.has_frame());
    assert!(!capture.buffer().is_empty());
    assert_eq!(capture.buffer().len(), 27_049_280);
}

#[test]
fn context_buffer_matches_dimensions() {
    let size = GlTextureSize { width: 33, height: 17 };
    let capture =
        OpenVRMirrorCapture::new(Eye::Right, Ok((live_info(), size)), 0).expect("acquired");
    assert_eq!(capture.dimensions(), (33, 17));
    assert_eq!(capture.width(), 33);
    assert_eq!(capture.height(), 17);
    assert_eq!(capture.buffer().len(), 33 * 17 * 4);
    assert_eq!(capture.linesize(), 33 * 4);
    assert!(capture.buffer().iter().all(|&b| b == 0));
}

#[test]
fn acquisition_failure_builds_nothing() {
    let r = OpenVRMirrorCapture::new(
        Eye::Left,
        Err(CompositorError(101)),
        0,
    );
    match r {
        Err(e) => assert_eq!(e, CompositorError(101)),
        Ok(_) => panic!("acquisition error must not build a context"),
    }
}
