use glowberry_lib::external_surface::{
    has_shader_background, is_image_extension, load_background_source, source_to_background,
    BackgroundSource, ExternalSurfaceError,
};
use glowberry_lib::config::{
    Color, Entry, Gradient, Rgb, ShaderContent, ShaderLanguage, ShaderSource, Source,
};
use glowberry_lib::context::Context;
use glowberry_lib::gpu::{choose_adapter, configure_surface, AdapterChoice, AlphaMode, PresentMode};
use glowberry_lib::shader_params::{Complexity, ParamType, ShaderMetadata};
use glowberry_lib::state::{forget_output, record_shown};
use glowberry_lib::user_context::{Environment, UserContext};

fn pairs(vars: &[(&str, &str)]) -> Vec<(String, String)> {
    vars.iter().map(|(k, v)| (k.to_string(), v.to_string())).collect()
}

#[test]
fn user_context_applies_and_restores_env() {
    let mut environment = Environment::new();
    environment.set("GLOWBERRY_TEST_ENV_RESTORE".to_string(), "initial".to_string());

    let context = UserContext::new(pairs(&[("GLOWBERRY_TEST_ENV_RESTORE", "applied")]));
    let guard = context.apply(&mut environment);

    assert_eq!(environment.get("GLOWBERRY_TEST_ENV_RESTORE").as_deref(), Some("applied"));

    guard.restore(&mut environment);

    assert_eq!(environment.get("GLOWBERRY_TEST_ENV_RESTORE").as_deref(), Some("initial"));
}

#[test]
fn user_context_restores_duplicate_keys_in_reverse_order() {
    let mut environment = Environment::new();
    environment.set("GLOWBERRY_TEST_ENV_DUPLICATE".to_string(), "initial".to_string());

    let context = UserContext::new(pairs(&[
        ("GLOWBERRY_TEST_ENV_DUPLICATE", "first"),
        ("GLOWBERRY_TEST_ENV_DUPLICATE", "second"),
    ]));
    let guard = context.apply(&mut environment);

    assert_eq!(environment.get("GLOWBERRY_TEST_ENV_DUPLICATE").as_deref(), Some("second"));

    guard.restore(&mut environment);

    assert_eq!(environment.get("GLOWBERRY_TEST_ENV_DUPLICATE").as_deref(), Some("initial"));
}

#[test]
fn restoring_unsets_what_was_not_set() {
    let mut environment = Environment::new();
    environment.set("KEPT".to_string(), "as it is".to_string());
    let context = UserContext::new(pairs(&[
        ("WAYLAND_DISPLAY", "wayland-1"),
        ("XDG_RUNTIME_DIR", "/run/user/1000"),
        ("WAYLAND_DISPLAY", "wayland-2"),
    ]));
    assert_eq!(context.len(), 3);
    assert_eq!(context.name(1), "XDG_RUNTIME_DIR");
    let guard = context.apply(&mut environment);
    assert_eq!(environment.get("WAYLAND_DISPLAY").as_deref(), Some("wayland-2"));
    assert_eq!(environment.get("XDG_RUNTIME_DIR").as_deref(), Some("/run/user/1000"));
    guard.restore(&mut environment);
    assert_eq!(environment.get("WAYLAND_DISPLAY"), None);
    assert_eq!(environment.get("XDG_RUNTIME_DIR"), None);
    assert_eq!(environment.get("KEPT").as_deref(), Some("as it is"));
}

#[test]
fn environment_sets_and_removes() {
    let mut environment = Environment::new();
    assert_eq!(environment.get("A"), None);
    environment.set("A".to_string(), "1".to_string());
    environment.set("B".to_string(), "2".to_string());
    environment.set("A".to_string(), "3".to_string());
    assert_eq!(environment.get("A").as_deref(), Some("3"));
    assert_eq!(environment.get("B").as_deref(), Some("2"));
    environment.remove("A");
    assert_eq!(environment.get("A"), None);
    environment.remove("A");
    assert_eq!(environment.get("B").as_deref(), Some("2"));
}

#[test]
fn empty_context_changes_nothing() {
    let mut environment = Environment::new();
    environment.set("A".to_string(), "1".to_string());
    let guard = UserContext::new(Vec::new()).apply(&mut environment);
    assert_eq!(environment.get("A").as_deref(), Some("1"));
    guard.restore(&mut environment);
    assert_eq!(environment.get("A").as_deref(), Some("1"));
}

#[test]
fn external_surface_error_display() {
    let err = ExternalSurfaceError::Config("test".to_string());
    assert!(err.message().contains("test"));
}

#[test]
fn external_surface_errors_say_what_failed() {
    assert_eq!(
        ExternalSurfaceError::Config("a".to_string()).message(),
        "Failed to load config: a"
    );
    assert_eq!(
        ExternalSurfaceError::Shader("b".to_string()).message(),
        "Failed to create shader: b"
    );
    assert_eq!(ExternalSurfaceError::Image("c".to_string()).message(), "Failed to load image: c");
}

#[test]
fn sources_have_a_still_form() {
    assert!(matches!(
        source_to_background(&Source::Path("/a.png".to_string())),
        BackgroundSource::Image(path) if path == "/a.png"
    ));
    let red = Rgb { red: 0x3f80_0000, green: 0, blue: 0 };
    assert!(matches!(
        source_to_background(&Source::Color(Color::Single(red))),
        BackgroundSource::SolidColor(color) if color == red
    ));
    let gradient = Source::Color(Color::Gradient(Gradient { colors: vec![red, red], radius: 5 }));
    assert!(matches!(
        source_to_background(&gradient),
        BackgroundSource::Gradient { colors, radius: 5 } if colors == vec![red, red]
    ));
}

fn shader_entry() -> Entry {
    Entry::new(
        "all".to_string(),
        Source::Shader(ShaderSource {
            shader: ShaderContent::Code(String::new()),
            background_image: None,
            language: ShaderLanguage::Wgsl,
            frame_rate: 30,
        }),
    )
}

#[test]
fn shader_background_is_told_from_the_default_entry() {
    assert!(!has_shader_background(&None));
    assert!(load_background_source(&None).is_none());
    let mut context = Context::new();
    assert!(!has_shader_background(&Some(Context::new())));
    context.set_entry(Entry::new("DP-1".to_string(), shader_entry().source)).unwrap();
    let context = Some(context);
    assert!(!has_shader_background(&context));
    assert!(matches!(load_background_source(&context), Some(BackgroundSource::SolidColor(_))));
    let mut context = Context::new();
    context.set_default_background(shader_entry()).unwrap();
    let context = Some(context);
    assert!(has_shader_background(&context));
    assert!(matches!(load_background_source(&context), Some(BackgroundSource::Shader)));
}

#[test]
fn image_extensions_are_known() {
    for extension in ["jpg", "jpeg", "png", "webp", "gif", "bmp"] {
        assert!(is_image_extension(extension));
    }
    for extension in ["JPG", "txt", "", "wgsl", "pngx"] {
        assert!(!is_image_extension(extension));
    }
}

#[test]
fn complexity_has_a_name() {
    assert_eq!(Complexity::Low.as_str(), "Low");
    assert_eq!(Complexity::Medium.as_str(), "Medium");
    assert_eq!(Complexity::High.as_str(), "High");
    assert_ne!(ParamType::F32, ParamType::I32);
    let metadata = ShaderMetadata::default();
    assert!(metadata.name.is_empty() && metadata.author.is_empty());
    assert!(metadata.source.is_empty() && metadata.license.is_empty());
}

#[test]
fn low_power_adapter_is_chosen_when_preferred_and_there() {
    assert_eq!(choose_adapter(true, true), AdapterChoice::LowPower);
    assert_eq!(choose_adapter(true, false), AdapterChoice::Default);
    assert_eq!(choose_adapter(false, true), AdapterChoice::Default);
    assert_eq!(choose_adapter(false, false), AdapterChoice::Default);
}

#[test]
fn surfaces_are_configured_opaque_and_in_step() {
    let configuration = configure_surface(1920, 1080);
    assert_eq!((configuration.width, configuration.height), (1920, 1080));
    assert_eq!(configuration.present_mode, PresentMode::AutoVsync);
    assert_eq!(configuration.alpha_mode, AlphaMode::Opaque);
    assert_eq!(configuration.view_formats, 0);
}

#[test]
fn shown_sources_are_written_down_by_output() {
    let path = |p: &str| Source::Path(p.to_string());
    let names = |pairs: &Vec<(String, Source)>| {
        pairs.iter().map(|(name, _)| name.clone()).collect::<Vec<String>>()
    };
    let start = vec![
        ("DP-1".to_string(), path("/a")),
        ("DP-2".to_string(), path("/b")),
        ("DP-3".to_string(), path("/c")),
    ];
    let shown = record_shown(&start, &vec!["DP-2".to_string(), "DP-9".to_string()], &path("/n"));
    assert_eq!(names(&shown), vec!["DP-1", "DP-3", "DP-2", "DP-9"]);
    assert!(shown[0].1.same_as(&path("/a")));
    assert!(shown[2].1.same_as(&path("/n")));
    assert!(shown[3].1.same_as(&path("/n")));
    let unchanged = record_shown(&start, &Vec::new(), &path("/n"));
    assert_eq!(names(&unchanged), vec!["DP-1", "DP-2", "DP-3"]);
    let twice = record_shown(&start, &vec!["DP-1".to_string(), "DP-1".to_string()], &path("/n"));
    assert_eq!(names(&twice), vec!["DP-2", "DP-3", "DP-1"]);
    let without = forget_output(&start, "DP-2");
    assert_eq!(names(&without), vec!["DP-1", "DP-3"]);
    assert_eq!(names(&forget_output(&start, "DP-7")), vec!["DP-1", "DP-2", "DP-3"]);
    assert!(forget_output(&Vec::new(), "DP-1").is_empty());
}
