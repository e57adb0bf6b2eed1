use glowberry_lib::config::{
    Color, Config, Entry, Gradient, Rgb, ShaderContent, ShaderLanguage, ShaderSource, Source,
};
use glowberry_lib::context::{ConfigError, Context};
use glowberry_lib::power_saving::{OnBatteryAction, PowerSavingConfig};
use glowberry_lib::upower::{
    effective_frame_rate, should_pause_animation, PowerChange, PowerState,
};

#[test]
fn power_state_default() {
    let state = PowerState::default();
    assert!(!state.on_battery);
    assert!(state.battery_percentage.is_none());
    assert!(!state.lid_is_closed);
}

#[test]
fn power_state_takes_changes_in() {
    let mut state = PowerState::initial(None, Some(true), Some(55));
    assert_eq!(
        state,
        PowerState { on_battery: false, battery_percentage: Some(55), lid_is_closed: true }
    );
    state.apply(PowerChange::OnBattery(true));
    state.apply(PowerChange::LidIsClosed(false));
    state.apply(PowerChange::Percentage(Some(54)));
    assert_eq!(
        state,
        PowerState { on_battery: true, battery_percentage: Some(54), lid_is_closed: false }
    );
    assert_eq!(PowerState::initial(Some(true), None, None).on_battery, true);
}

#[test]
fn on_battery_action_frame_rates() {
    assert_eq!(OnBatteryAction::Nothing.frame_rate(), None);
    assert_eq!(OnBatteryAction::Pause.frame_rate(), None);
    assert_eq!(OnBatteryAction::ReduceTo15Fps.frame_rate(), Some(15));
    assert_eq!(OnBatteryAction::ReduceTo10Fps.frame_rate(), Some(10));
    assert_eq!(OnBatteryAction::ReduceTo5Fps.frame_rate(), Some(5));
    assert!(OnBatteryAction::Pause.should_pause());
    assert!(!OnBatteryAction::ReduceTo5Fps.should_pause());
    assert!(OnBatteryAction::Nothing.is_nothing());
    assert!(!OnBatteryAction::Pause.is_nothing());
    assert_eq!(OnBatteryAction::default(), OnBatteryAction::Nothing);
}

#[test]
fn power_saving_defaults() {
    let config = PowerSavingConfig::default();
    assert_eq!(
        config,
        PowerSavingConfig {
            pause_on_fullscreen: false,
            pause_on_covered: false,
            coverage_threshold: 90,
            adjust_on_battery: false,
            on_battery_action: OnBatteryAction::Pause,
            pause_on_low_battery: true,
            low_battery_threshold: 20,
            pause_on_lid_closed: true,
        }
    );
}

#[test]
fn empty_store_gives_the_fallbacks() {
    let context = Context::new();
    assert!(!context.pause_on_fullscreen());
    assert!(!context.pause_on_covered());
    assert_eq!(context.coverage_threshold(), 90);
    assert!(!context.adjust_on_battery());
    assert_eq!(context.on_battery_action(), OnBatteryAction::Nothing);
    assert!(context.pause_on_low_battery());
    assert_eq!(context.low_battery_threshold(), 20);
    assert!(context.pause_on_lid_closed());
    assert!(context.same_on_all());
    assert!(!context.prefer_low_power());
    assert_eq!(
        context.power_saving_config(),
        PowerSavingConfig { on_battery_action: OnBatteryAction::Nothing, ..PowerSavingConfig::default() }
    );
}

#[test]
fn setters_store_what_getters_read() {
    let mut context = Context::new();
    assert_eq!(context.set_pause_on_fullscreen(true), Ok(()));
    assert_eq!(context.set_pause_on_covered(true), Ok(()));
    assert_eq!(context.set_coverage_threshold(50), Ok(()));
    assert_eq!(context.set_adjust_on_battery(true), Ok(()));
    assert_eq!(context.set_on_battery_action(OnBatteryAction::ReduceTo10Fps), Ok(()));
    assert_eq!(context.set_pause_on_low_battery(false), Ok(()));
    assert_eq!(context.set_low_battery_threshold(30), Ok(()));
    assert_eq!(context.set_pause_on_lid_closed(false), Ok(()));
    assert_eq!(context.set_same_on_all(false), Ok(()));
    assert_eq!(context.set_prefer_low_power(true), Ok(()));
    assert!(context.pause_on_fullscreen());
    assert!(context.pause_on_covered());
    assert_eq!(context.coverage_threshold(), 50);
    assert!(context.adjust_on_battery());
    assert_eq!(context.on_battery_action(), OnBatteryAction::ReduceTo10Fps);
    assert!(!context.pause_on_low_battery());
    assert_eq!(context.low_battery_threshold(), 30);
    assert!(!context.pause_on_lid_closed());
    assert!(!context.same_on_all());
    assert!(context.prefer_low_power());
}

#[test]
fn save_then_load_gives_the_same_settings() {
    let settings = PowerSavingConfig {
        pause_on_fullscreen: true,
        pause_on_covered: false,
        coverage_threshold: 99,
        adjust_on_battery: true,
        on_battery_action: OnBatteryAction::ReduceTo15Fps,
        pause_on_low_battery: false,
        low_battery_threshold: 10,
        pause_on_lid_closed: false,
    };
    let mut context = Context::new();
    assert_eq!(settings.save(&mut context), Ok(()));
    assert_eq!(PowerSavingConfig::load(&context), settings);
    let loaded = PowerSavingConfig::load(&context);
    let before = format!("{:?}", context);
    assert_eq!(loaded.save(&mut context), Ok(()));
    assert_eq!(format!("{:?}", context), before);
    assert_eq!(PowerSavingConfig::load(&context), settings);
}

#[test]
fn read_only_store_refuses_writes() {
    let mut context = Context::new();
    context.set_low_battery_threshold(30).unwrap();
    let mut context = context.read_only();
    assert!(!context.is_writable());
    assert_eq!(context.set_low_battery_threshold(40), Err(ConfigError::NoConfigDirectory));
    assert_eq!(context.set_same_on_all(false), Err(ConfigError::NoConfigDirectory));
    assert_eq!(
        context.set_entry(Entry::new("DP-1".to_string(), Source::Path("/a".to_string()))),
        Err(ConfigError::NoConfigDirectory)
    );
    assert_eq!(PowerSavingConfig::default().save(&mut context), Err(ConfigError::NoConfigDirectory));
    assert_eq!(context.low_battery_threshold(), 30);
    assert!(context.pause_on_lid_closed());
}

#[test]
fn entries_are_kept_by_output() {
    let mut context = Context::new();
    assert!(matches!(context.entry("DP-1"), Err(ConfigError::NotFound)));
    context.set_entry(Entry::new("DP-1".to_string(), Source::Path("/a".to_string()))).unwrap();
    context.set_entry(Entry::new("DP-2".to_string(), Source::Path("/b".to_string()))).unwrap();
    context.set_entry(Entry::new("DP-1".to_string(), Source::Path("/c".to_string()))).unwrap();
    let backgrounds = context.backgrounds();
    assert_eq!(backgrounds.len(), 2);
    assert!(backgrounds[0].same_as(&Entry::new("DP-1".to_string(), Source::Path("/c".to_string()))));
    assert!(backgrounds[1].same_as(&Entry::new("DP-2".to_string(), Source::Path("/b".to_string()))));
    assert!(context
        .entry("DP-2")
        .unwrap()
        .same_as(&Entry::new("DP-2".to_string(), Source::Path("/b".to_string()))));
    assert!(matches!(context.entry("DP-3"), Err(ConfigError::NotFound)));
}

fn shader(frame_rate: u8) -> Source {
    Source::Shader(ShaderSource {
        shader: ShaderContent::Path("/s/x.wgsl".to_string()),
        background_image: None,
        language: ShaderLanguage::Wgsl,
        frame_rate,
    })
}

fn frame_rate_of(entry: &Entry) -> u8 {
    match &entry.source {
        Source::Shader(source) => source.frame_rate,
        _ => panic!("not a shader"),
    }
}

#[test]
fn frame_rate_is_clamped_at_load() {
    let mut context = Context::new();
    context.set_default_background(Entry::new("all".to_string(), shader(0))).unwrap();
    context.set_entry(Entry::new("DP-1".to_string(), shader(200))).unwrap();
    context.set_entry(Entry::new("DP-2".to_string(), shader(24))).unwrap();
    let config = Config::load(&context);
    assert_eq!(frame_rate_of(&config.default_background), 1);
    assert_eq!(frame_rate_of(&config.backgrounds[0]), 60);
    assert_eq!(frame_rate_of(&config.backgrounds[1]), 24);
    assert_eq!(frame_rate_of(&context.entry("DP-1").unwrap()), 60);
}

#[test]
fn loaded_default_background_is_for_all_outputs() {
    let mut context = Context::new();
    assert!(context.default_background().same_as(&Entry::fallback()));
    context
        .set_default_background(Entry::new("DP-9".to_string(), Source::Path("/a".to_string())))
        .unwrap();
    let config = Config::load(&context);
    assert_eq!(config.default_background.output, "all");
    assert!(config.default_background.is_for_all());
    assert!(config.same_on_all);
    assert!(config.backgrounds.is_empty());
}

#[test]
fn default_config_shows_black_everywhere() {
    let config = Config::default();
    assert!(config.default_background.same_as(&Entry::new(
        "all".to_string(),
        Source::Color(Color::Single(Rgb { red: 0, green: 0, blue: 0 }))
    )));
    assert!(config.backgrounds.is_empty());
    assert!(config.same_on_all);
    assert_eq!(config.power_saving, PowerSavingConfig::default());
    assert!(!config.uses_shader());
}

#[test]
fn entries_apply_by_name_or_to_all() {
    let named = Entry::new("DP-1".to_string(), Source::Path("/a".to_string()));
    assert!(named.applies_to(&Some("DP-1".to_string())));
    assert!(!named.applies_to(&Some("DP-2".to_string())));
    assert!(!named.applies_to(&None));
    assert!(!named.is_for_all());
    let all = Entry::fallback();
    assert!(all.applies_to(&Some("DP-1".to_string())));
    assert!(all.applies_to(&None));
}

#[test]
fn sources_compare_by_what_they_hold() {
    let gradient = |radius: u32, blue: u32| {
        Source::Color(Color::Gradient(Gradient {
            colors: vec![Rgb { red: 1, green: 2, blue: 3 }, Rgb { red: 4, green: 5, blue }],
            radius,
        }))
    };
    assert!(gradient(7, 6).same_as(&gradient(7, 6)));
    assert!(!gradient(7, 6).same_as(&gradient(8, 6)));
    assert!(!gradient(7, 6).same_as(&gradient(7, 9)));
    assert!(gradient(7, 6).clone().same_as(&gradient(7, 6)));
    assert!(shader(30).same_as(&shader(30)));
    assert!(!shader(30).same_as(&shader(31)));
    assert!(!shader(30).same_as(&Source::Path("/s/x.wgsl".to_string())));
    assert!(shader(30).is_shader());
    assert!(!gradient(1, 1).is_shader());
}

#[test]
fn config_with_a_shader_entry_uses_a_shader() {
    let mut config = Config::default();
    assert!(!config.uses_shader());
    config.backgrounds.push(Entry::new("DP-1".to_string(), Source::Path("/a".to_string())));
    config.backgrounds.push(Entry::new("DP-2".to_string(), shader(30)));
    assert!(config.uses_shader());
    config.backgrounds.clear();
    config.default_background = Entry::new("all".to_string(), shader(30));
    assert!(config.uses_shader());
}

fn power(on_battery: bool, battery_percentage: Option<u16>, lid_is_closed: bool) -> Option<PowerState> {
    Some(PowerState { on_battery, battery_percentage, lid_is_closed })
}

#[test]
fn nothing_pauses_without_a_power_monitor() {
    let config = PowerSavingConfig::default();
    assert!(!should_pause_animation(&None, &config));
    assert_eq!(effective_frame_rate(&None, &config), None);
}

#[test]
fn closed_lid_pauses_when_asked_to() {
    let mut config = PowerSavingConfig::default();
    assert!(should_pause_animation(&power(false, None, true), &config));
    assert!(!should_pause_animation(&power(false, None, false), &config));
    config.pause_on_lid_closed = false;
    assert!(!should_pause_animation(&power(false, None, true), &config));
}

#[test]
fn low_battery_pauses_at_or_below_the_threshold() {
    let mut config = PowerSavingConfig::default();
    assert!(should_pause_animation(&power(true, Some(19), false), &config));
    assert!(should_pause_animation(&power(true, Some(20), false), &config));
    assert!(!should_pause_animation(&power(true, Some(21), false), &config));
    assert!(!should_pause_animation(&power(true, None, false), &config));
    assert!(should_pause_animation(&power(false, Some(0), false), &config));
    config.low_battery_threshold = 10;
    assert!(!should_pause_animation(&power(true, Some(19), false), &config));
    config.low_battery_threshold = 20;
    config.pause_on_low_battery = false;
    assert!(!should_pause_animation(&power(true, Some(19), false), &config));
}

#[test]
fn battery_action_pauses_or_slows_down() {
    let mut config = PowerSavingConfig {
        adjust_on_battery: true,
        pause_on_low_battery: false,
        pause_on_lid_closed: false,
        ..PowerSavingConfig::default()
    };
    assert!(should_pause_animation(&power(true, Some(90), false), &config));
    assert!(!should_pause_animation(&power(false, Some(90), false), &config));
    assert_eq!(effective_frame_rate(&power(true, Some(90), false), &config), None);
    config.on_battery_action = OnBatteryAction::ReduceTo15Fps;
    assert!(!should_pause_animation(&power(true, Some(90), false), &config));
    assert_eq!(effective_frame_rate(&power(true, Some(90), false), &config), Some(15));
    assert_eq!(effective_frame_rate(&power(false, Some(90), false), &config), None);
    config.on_battery_action = OnBatteryAction::ReduceTo5Fps;
    assert_eq!(effective_frame_rate(&power(true, None, false), &config), Some(5));
    config.adjust_on_battery = false;
    assert_eq!(effective_frame_rate(&power(true, None, false), &config), None);
    config.on_battery_action = OnBatteryAction::Pause;
    assert!(!should_pause_animation(&power(true, Some(90), false), &config));
}

#[test]
fn default_settings_pause_nothing_on_battery_above_the_threshold() {
    let config = PowerSavingConfig::default();
    assert!(!should_pause_animation(&power(true, Some(80), false), &config));
    assert!(!should_pause_animation(&power(true, Some(21), false), &config));
    assert!(!should_pause_animation(&power(true, None, false), &config));
    assert_eq!(effective_frame_rate(&power(true, Some(80), false), &config), None);
    assert!(should_pause_animation(&power(true, Some(20), false), &config));
    assert!(should_pause_animation(&power(true, Some(80), true), &config));
}

#[test]
fn battery_level_that_is_no_number_is_below_no_threshold() {
    let mut state = PowerState::initial(Some(true), None, Some(5));
    let config = PowerSavingConfig::default();
    assert!(should_pause_animation(&Some(state), &config));
    state.apply(PowerChange::Percentage(None));
    assert_eq!(state.battery_percentage, None);
    assert!(!should_pause_animation(&Some(state), &config));
}
