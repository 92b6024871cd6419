use obs_openvr::build_profile::{BuildProfile, BuildProfileParseError};
use obs_openvr::logging::{append_log_level, list_has_crate};
use obs_openvr::mirror::utils::{gl_error_to_result, GlTextureSize};
use obs_openvr::module::SemanticVersion;
use obs_openvr::native_utils::{status_to_result, TextureSize};
use obs_openvr::obs::enums::ObsEnum;
use obs_openvr::obs::graphics::{ContextBinding, GraphicsContext, GsColorFormat, Texture};
use obs_openvr::obs::option_ext::OptionExt;
use obs_openvr::openvr::headset_view::HeadsetViewSize;
use obs_openvr::openvr::Eye;
use obs_openvr::option_ext::{flip_tuple, OptionExtDefault, OptionExtTup};
use obs_openvr::timing::{Timer, TimerExt};

#[test]
fn timer_measures_from_start_and_checkpoints() {
    let mut t = Timer::new(100);
    assert_eq!(t.start_time(), 100);
    assert_eq!(t.last_checkpoint(), 100);
    assert_eq!(t.elapsed(150), 50);
    assert_eq!(t.elapsed(100), 0);
    assert_eq!(t.elapsed(50), 0);
    assert_eq!(t.elapsed_ms(600), 500u128);

    assert_eq!(t.elapsed_checkpoint(180), 80);
    assert_eq!(t.checkpoint(200), 100);
    assert_eq!(t.last_checkpoint(), 200);
    assert_eq!(t.elapsed_checkpoint(260), 60);
    assert_eq!(t.checkpoint(300), 100);

    t.reset(1000);
    assert_eq!(t.start_time(), 1000);
    assert_eq!(t.last_checkpoint(), 300);
    assert_eq!(t.elapsed(1250), 250);
}

#[test]
fn timer_ext_reports_the_checkpoint_span() {
    let mut t = Timer::new(0);
    assert_eq!(t.log_checkpoint_ms(40), 40);
    assert_eq!(t.log_checkpoint_ms(100), 60);
}

#[test]
fn semantic_version_packs_and_unpacks() {
    let v = SemanticVersion::new(27, 2, 4);
    assert_eq!(v.major(), 27);
    assert_eq!(v.minor(), 2);
    assert_eq!(v.patch(), 4);
    assert_eq!(v.packed(), (27u32 << 24) | (2u32 << 16) | 4);

    let v = SemanticVersion::new(255, 255, 255);
    assert_eq!(v.major(), 255);
    assert_eq!(v.minor(), 255);
    assert_eq!(v.patch(), 255);

    let v = SemanticVersion::new(0, 0, 0);
    assert_eq!(v.packed(), 0);
}

#[test]
fn build_profile_parsing() {
    assert_eq!(BuildProfile::parse_profile("release"), Ok(BuildProfile::Release));
    assert_eq!(BuildProfile::parse_profile("debug"), Ok(BuildProfile::Debug));
    assert_eq!(
        BuildProfile::parse_profile("Release"),
        Err(BuildProfileParseError::InvalidBuildProfile(String::from("Release")))
    );
    let parsed: Result<BuildProfile, _> = "release".parse();
    assert_eq!(parsed, Ok(BuildProfile::Release));
}

#[test]
fn build_profile_defaults_to_debug() {
    assert_eq!(BuildProfile::current_or_default(None), BuildProfile::Debug);
    assert_eq!(BuildProfile::current_or_default(Some("release")), BuildProfile::Release);
    assert_eq!(BuildProfile::current_or_default(Some("debug")), BuildProfile::Debug);
    assert_eq!(BuildProfile::current_or_default(Some("prod")), BuildProfile::Debug);
    assert_eq!(BuildProfile::default(), BuildProfile::Debug);
    assert!(BuildProfile::Debug.is_debug());
    assert!(!BuildProfile::Release.is_debug());
    assert_eq!(BuildProfile::Release.as_str(), "release");
    assert_eq!(BuildProfile::Debug.as_str(), "debug");
}

#[test]
fn filter_list_lookup() {
    assert!(list_has_crate("obs_openvr=info", "obs_openvr"));
    assert!(list_has_crate("a=1,obs_openvr=trace,b=2", "obs_openvr"));
    assert!(list_has_crate("a=1,b=2", "b"));
    assert!(!list_has_crate("ab=1", "a"));
    assert!(!list_has_crate("", "a"));
    assert!(!list_has_crate("a", "a"));
    assert!(!list_has_crate("b=1,c=2", "a"));
    assert!(list_has_crate("a=", "a"));
}

#[test]
fn filter_list_append() {
    assert_eq!(append_log_level(None, "obs", "info"), "obs=info");
    assert_eq!(append_log_level(Some("x=1"), "obs", "trace"), "x=1,obs=trace");
    assert_eq!(append_log_level(Some(""), "c", "debug"), ",c=debug");
}

#[test]
fn status_translations() {
    assert_eq!(status_to_result(0), Ok(()));
    assert_eq!(status_to_result(-3), Err(-3));
    assert_eq!(gl_error_to_result(0), Ok(()));
    assert_eq!(gl_error_to_result(0x505), Err(0x505));
}

#[test]
fn size_values() {
    let s = GlTextureSize::empty();
    assert_eq!((s.width, s.height), (0, 0));
    let t = TextureSize { width: 4, height: 3 };
    assert_eq!((t.width, t.height), (4, 3));
    let h = HeadsetViewSize { width: 1852, height: 1608 };
    assert_eq!((h.width, h.height), (1852, 1608));
}

#[test]
fn host_texture_carries_its_image() {
    let data = vec![1u8, 2, 3, 4, 5, 6, 7, 8, 9, 10, 11, 12, 13, 14, 15, 16];
    let t = Texture::new(2, 2, GsColorFormat::Rgba, &data, 0, true).expect("allocated");
    assert_eq!(t.get_width(), 2);
    assert_eq!(t.get_height(), 2);
    assert_eq!(t.get_dimensions(), (2, 2));
    assert_eq!(t.get_color_format(), GsColorFormat::Rgba);
    assert_eq!(t.image_len(), 16);

    assert!(Texture::new(2, 2, GsColorFormat::Bgra, &data, 0, false).is_none());
}

#[test]
fn graphics_critical_section_balances() {
    let mut gfx = GraphicsContext::new();
    assert_eq!(gfx.depth(), 0);
    gfx.enter_graphics();
    gfx.enter_graphics();
    assert_eq!(gfx.depth(), 2);
    gfx.leave_graphics();
    gfx.leave_graphics();
    assert_eq!(gfx.depth(), 0);
}

#[test]
fn context_isolation_restores_the_saved_binding() {
    let mut ctx = ContextBinding::new();
    ctx.bind(41);
    let saved = ctx.isolate_begin();
    assert_eq!(saved, Some(41));
    assert_eq!(ctx.bound(), None);
    // The isolated body binds its own context...
    ctx.bind(7);
    // ...and the end of the scope restores exactly the saved one.
    ctx.isolate_end(saved);
    assert_eq!(ctx.bound(), Some(41));
}

#[test]
fn eye_settings_strings() {
    assert_eq!(Eye::Left.as_str(), "left");
    assert_eq!(Eye::Right.as_str(), "right");
}

#[test]
fn option_helpers() {
    let some: Option<u32> = Some(5);
    let none: Option<u32> = None;
    assert_eq!(OptionExtDefault::or_default(some), 5);
    assert_eq!(OptionExtDefault::or_default(none), 0);

    assert_eq!(flip_tuple((1, "a")), ("a", 1));

    let some: Option<u32> = Some(5);
    assert_eq!(some.and_tup(Some("x")), Some((5, "x")));
    let some: Option<u32> = Some(5);
    assert_eq!(some.and_tup(None::<&str>), None);
    let none: Option<u32> = None;
    assert_eq!(none.and_tup(Some("x")), None);

    let some: Option<u32> = Some(5);
    assert_eq!(some.and_tup_flipped(Some("x")), Some(("x", 5)));

    let some: Option<u32> = Some(5);
    assert_eq!(some.and_then_tup(|v| if *v > 2 { Some(v * 2) } else { None }), Some((5, 10)));
    let some: Option<u32> = Some(1);
    assert_eq!(some.and_then_tup(|v| if *v > 2 { Some(v * 2) } else { None }), None);
    let some: Option<u32> = Some(5);
    assert_eq!(
        some.and_then_tup_flipped(|v| if *v > 2 { Some(v * 2) } else { None }),
        Some((10, 5))
    );
}

#[test]
fn option_or_default_from_obs() {
    let missing: Option<BuildProfile> = None;
    assert_eq!(OptionExt::or_default(missing), BuildProfile::Debug);
}
