use glowberry_lib::config::{Config, Entry, ShaderContent, ShaderLanguage, ShaderSource, Source};
use glowberry_lib::context::Context;
use glowberry_lib::engine::reload::WatchKind;
use glowberry_lib::engine::run::Event;
use glowberry_lib::engine::{
    Action, BackgroundEngine, CosmicBg, EngineConfig, OutputInfo, SurfaceOutcome,
};
use glowberry_lib::fragment_canvas::{FragmentCanvas, FramePass, PassLoad, ShaderError};
use glowberry_lib::power_saving::{OnBatteryAction, PowerSavingConfig};
use glowberry_lib::upower::PowerState;
use glowberry_lib::wallpaper::Wallpaper;

fn shader_source(path: &str, frame_rate: u8) -> ShaderSource {
    ShaderSource {
        shader: ShaderContent::Path(path.to_string()),
        background_image: None,
        language: ShaderLanguage::Wgsl,
        frame_rate,
    }
}

fn config_with(source: Source, power_saving: PowerSavingConfig) -> Config {
    Config {
        default_background: Entry::new("all".to_string(), source),
        backgrounds: Vec::new(),
        same_on_all: true,
        power_saving,
    }
}

fn output(name: &str, scale_factor: u32, mode: (u32, u32)) -> OutputInfo {
    OutputInfo { name: Some(name.to_string()), scale_factor, mode: Some(mode) }
}

fn built(source: &ShaderSource, now: u64) -> FragmentCanvas {
    FragmentCanvas::new(source, Ok("fn main() {}".to_string()), Ok(()), now).unwrap().0
}

fn rearm(layer: u64) -> Vec<Action> {
    vec![Action::RequestFrame { layer }, Action::Commit { layer }]
}

fn running_shader_engine(
    power: Option<PowerState>,
    power_saving: PowerSavingConfig,
    frame_rate: u8,
) -> CosmicBg {
    let source = shader_source("/s/x.wgsl", frame_rate);
    let mut engine =
        CosmicBg::new(config_with(Source::Shader(source.clone()), power_saving), power, true, 6);
    engine.new_output(1, output("eDP-1", 1, (1920, 1080)));
    engine.configure(0, 1920, 1080);
    engine.canvas_built(0, Some(built(&source, 0)), 0);
    engine.frame_result(0, true, SurfaceOutcome::Presented, 0);
    engine
}

#[test]
fn engine_config_defaults() {
    let config = EngineConfig::default();
    assert!(config.enable_wayland);
}

#[test]
fn image_background_on_a_single_output() {
    let mut engine = CosmicBg::new(
        config_with(Source::Path("/img/a.jpg".to_string()), PowerSavingConfig::default()),
        None,
        true,
        6,
    );
    let events = vec![
        Event::NewOutput { output: 1, info: output("eDP-1", 1, (1920, 1080)) },
        Event::Configure { layer: 0, width: 1920, height: 1080 },
        Event::PoolReady { layer: 0, bytes: 1920 * 1080 * 4, ok: true },
    ];
    let actions = BackgroundEngine::run(EngineConfig::default(), &mut engine, &events);
    assert_eq!(
        actions,
        vec![
            Action::CreateLayer { layer: 0, output: 1, fractional_scale: true },
            Action::SaveState { wallpaper: 0 },
            Action::EnsurePool { layer: 0, bytes: 8_294_400 },
            Action::Draw { wallpaper: 0 },
        ]
    );
    assert_eq!(engine.wallpapers[0].layers[0].pool, Some(1920 * 1080 * 4));
    assert_eq!(engine.wallpapers[0].layers[0].gpu_state, None);
    assert!(!engine.gpu_renderer);
    assert!(!actions.contains(&Action::InitRenderer));
}

#[test]
fn shader_on_two_outputs_of_different_sizes() {
    let source = shader_source("/s/x.wgsl", 30);
    let mut engine = CosmicBg::new(
        config_with(Source::Shader(source.clone()), PowerSavingConfig::default()),
        None,
        true,
        6,
    );
    engine.new_output(1, output("DP-1", 1, (1920, 1080)));
    engine.new_output(2, output("DP-2", 1, (3840, 2160)));
    engine.preferred_scale(0, 120);
    engine.preferred_scale(1, 180);
    assert_eq!(
        engine.configure(0, 1920, 1080),
        vec![Action::BuildCanvas { layer: 0, wallpaper: 0 }]
    );
    assert_eq!(
        engine.configure(1, 2560, 1440),
        vec![Action::BuildCanvas { layer: 1, wallpaper: 0 }]
    );
    let first = engine.canvas_built(0, Some(built(&source, 10)), 10);
    assert_eq!(
        first,
        vec![
            Action::CreateSurface { layer: 0, width: 1920, height: 1080 },
            Action::UpdateResolution { layer: 0, width: 1920, height: 1080 },
            Action::RenderFrame {
                layer: 0,
                width: 1920,
                height: 1080,
                pass: FramePass { elapsed_nanos: 0, load: PassLoad::ClearTransparent, vertex_count: 4 },
                first: true,
            },
        ]
    );
    let second = engine.canvas_built(1, Some(built(&source, 20)), 25);
    assert_eq!(
        second,
        vec![
            Action::CreateSurface { layer: 1, width: 3840, height: 2160 },
            Action::UpdateResolution { layer: 1, width: 3840, height: 2160 },
            Action::RenderFrame {
                layer: 1,
                width: 3840,
                height: 2160,
                pass: FramePass { elapsed_nanos: 5, load: PassLoad::ClearTransparent, vertex_count: 4 },
                first: true,
            },
        ]
    );
    assert_eq!(
        engine.frame_result(0, true, SurfaceOutcome::Presented, 30),
        vec![
            Action::SetViewportDestination { layer: 0, width: 1920, height: 1080 },
            Action::RequestFrame { layer: 0 },
            Action::Commit { layer: 0 },
        ]
    );
    assert_eq!(
        engine.frame_result(1, true, SurfaceOutcome::Timeout, 40),
        vec![
            Action::SetViewportDestination { layer: 1, width: 2560, height: 1440 },
            Action::RequestFrame { layer: 1 },
            Action::Commit { layer: 1 },
        ]
    );
    let layers = &engine.wallpapers[0].layers;
    assert_eq!(layers.len(), 2);
    let one = layers[0].gpu_state.unwrap();
    let two = layers[1].gpu_state.unwrap();
    assert_eq!((one.surface_width, one.surface_height), (1920, 1080));
    assert_eq!((two.surface_width, two.surface_height), (3840, 2160));
    assert_eq!(one.canvas.last_frame, 30);
    assert_eq!(two.canvas.last_frame, 20);
    assert_eq!(one.canvas.configured_frame_rate(), 30);
}

#[test]
fn lid_closes_during_animation() {
    let open = PowerState { on_battery: false, battery_percentage: None, lid_is_closed: false };
    let closed = PowerState { lid_is_closed: true, ..open };
    let mut engine = running_shader_engine(Some(open), PowerSavingConfig::default(), 30);
    let second = 1_000_000_000;
    assert!(matches!(engine.frame(0, second)[..], [Action::RenderFrame { .. }]));
    engine.frame_result(0, false, SurfaceOutcome::Presented, second);

    engine.power_changed(Some(closed));
    assert_eq!(engine.frame(0, 2 * second), rearm(0));
    assert_eq!(engine.frame(0, 3 * second), rearm(0));
    assert_eq!(engine.wallpapers[0].layers[0].gpu_state.unwrap().canvas.last_frame, second);

    engine.power_changed(Some(open));
    assert_eq!(
        engine.frame(0, 3 * second + 1),
        vec![Action::RenderFrame {
            layer: 0,
            width: 1920,
            height: 1080,
            pass: FramePass { elapsed_nanos: 3 * second + 1, load: PassLoad::ClearTransparent, vertex_count: 4 },
            first: false,
        }]
    );
    assert_eq!(engine.frame_result(0, false, SurfaceOutcome::Presented, 3 * second + 2), rearm(0));
}

#[test]
fn battery_drops_below_the_threshold() {
    let low = PowerState { on_battery: true, battery_percentage: Some(19), lid_is_closed: false };
    let settings = PowerSavingConfig {
        pause_on_low_battery: true,
        low_battery_threshold: 20,
        ..PowerSavingConfig::default()
    };
    let mut engine = running_shader_engine(Some(low), settings, 30);
    let second = 1_000_000_000;
    assert_eq!(engine.frame(0, second), rearm(0));

    let mut store = Context::new();
    store.set_low_battery_threshold(10).unwrap();
    let actions = engine.config_changed(&vec!["low-battery-threshold".to_string()], &store);
    assert_eq!(actions, vec![]);
    assert_eq!(engine.config.power_saving.low_battery_threshold, 10);
    assert_eq!(engine.wallpapers[0].layers.len(), 1);
    assert!(matches!(engine.frame(0, second + 1)[..], [Action::RenderFrame { first: false, .. }]));
}

#[test]
fn running_on_battery_slows_the_animation_down() {
    let mains = PowerState { on_battery: false, battery_percentage: Some(80), lid_is_closed: false };
    let battery = PowerState { on_battery: true, ..mains };
    let settings = PowerSavingConfig {
        adjust_on_battery: true,
        on_battery_action: OnBatteryAction::ReduceTo5Fps,
        ..PowerSavingConfig::default()
    };
    let mut engine = running_shader_engine(Some(battery), settings, 30);
    assert_eq!(engine.frame(0, 100_000_000), rearm(0));
    assert_eq!(engine.wallpapers[0].layers[0].gpu_state.unwrap().canvas.current_frame_rate(), 5);
    assert!(matches!(engine.frame(0, 200_000_000)[..], [Action::RenderFrame { .. }]));
    engine.power_changed(Some(mains));
    assert!(matches!(engine.frame(0, 40_000_000)[..], [Action::RenderFrame { .. }]));
    assert_eq!(engine.wallpapers[0].layers[0].gpu_state.unwrap().canvas.current_frame_rate(), 30);
    engine.power_changed(None);
    assert!(matches!(engine.frame(0, 40_000_000)[..], [Action::RenderFrame { .. }]));
}

#[test]
fn shader_file_with_a_frag_path_is_left_unrendered() {
    let glsl = shader_source("/s/x.frag", 30);
    let made = FragmentCanvas::new(&glsl, Ok("void main(){}".to_string()), Ok(()), 0);
    assert!(matches!(made, Err(ShaderError::UnsupportedLanguage(ShaderLanguage::Glsl))));

    let mut config = config_with(Source::Path("/img/a.jpg".to_string()), PowerSavingConfig::default());
    config.backgrounds.push(Entry::new("DP-1".to_string(), Source::Shader(glsl)));
    let mut engine = CosmicBg::new(config, None, true, 6);
    engine.new_output(1, output("DP-1", 1, (1920, 1080)));
    engine.new_output(2, output("DP-2", 1, (1920, 1080)));
    assert_eq!(
        engine.configure(0, 1920, 1080),
        vec![Action::BuildCanvas { layer: 0, wallpaper: 0 }]
    );
    assert_eq!(engine.canvas_built(0, made.ok().map(|m| m.0), 0), vec![]);
    assert_eq!(engine.wallpapers[0].layers[0].gpu_state, None);
    assert_eq!(engine.frame(0, 1_000_000_000), vec![]);
    assert_eq!(
        engine.configure(1, 1920, 1080),
        vec![Action::EnsurePool { layer: 1, bytes: 8_294_400 }]
    );
    assert_eq!(engine.pool_ready(1, 8_294_400, true), vec![Action::Draw { wallpaper: 1 }]);
    assert_eq!(
        engine.configure(0, 1920, 1080),
        vec![Action::BuildCanvas { layer: 0, wallpaper: 0 }]
    );
}

#[test]
fn lost_surface_is_configured_again() {
    let mut engine = running_shader_engine(None, PowerSavingConfig::default(), 30);
    engine.preferred_scale(0, 240);
    let second = 1_000_000_000;
    assert!(matches!(engine.frame(0, second)[..], [Action::RenderFrame { .. }]));
    let actions = engine.frame_result(0, false, SurfaceOutcome::Lost, second);
    assert_eq!(
        actions,
        vec![
            Action::ConfigureSurface { layer: 0, width: 3840, height: 2160 },
            Action::UpdateResolution { layer: 0, width: 3840, height: 2160 },
            Action::RequestFrame { layer: 0 },
            Action::Commit { layer: 0 },
        ]
    );
    let gpu = engine.wallpapers[0].layers[0].gpu_state.unwrap();
    assert_eq!(gpu.canvas.last_frame, 0);
    assert_eq!((gpu.surface_width, gpu.surface_height), (3840, 2160));
    assert!(matches!(
        engine.frame(0, second + 1)[..],
        [Action::RenderFrame { width: 3840, height: 2160, first: false, .. }]
    ));
    assert_eq!(engine.frame_result(0, false, SurfaceOutcome::Presented, second + 1), rearm(0));
    assert_eq!(engine.wallpapers[0].layers[0].gpu_state.unwrap().canvas.last_frame, second + 1);
}

#[test]
fn other_frame_failures_only_drop_the_frame() {
    let mut engine = running_shader_engine(None, PowerSavingConfig::default(), 30);
    for outcome in [SurfaceOutcome::Timeout, SurfaceOutcome::OutOfMemory, SurfaceOutcome::Other] {
        assert_eq!(engine.frame_result(0, false, outcome, 5), rearm(0));
        assert_eq!(engine.wallpapers[0].layers[0].gpu_state.unwrap().canvas.last_frame, 0);
    }
    assert_eq!(
        engine.frame_result(0, false, SurfaceOutcome::Outdated, 5),
        vec![
            Action::ConfigureSurface { layer: 0, width: 1920, height: 1080 },
            Action::UpdateResolution { layer: 0, width: 1920, height: 1080 },
            Action::RequestFrame { layer: 0 },
            Action::Commit { layer: 0 },
        ]
    );
}

fn store_with(default: Source, outputs: &[(&str, &str)]) -> Context {
    let mut store = Context::new();
    store.set_default_background(Entry::new("all".to_string(), default)).unwrap();
    for (name, path) in outputs {
        store.set_entry(Entry::new(name.to_string(), Source::Path(path.to_string()))).unwrap();
    }
    store
}

#[test]
fn changed_backgrounds_move_the_layers_to_new_wallpapers() {
    let mut engine = CosmicBg::new(
        config_with(Source::Path("/img/a.jpg".to_string()), PowerSavingConfig::default()),
        None,
        true,
        6,
    );
    engine.new_output(1, output("DP-1", 1, (1920, 1080)));
    engine.new_output(2, output("DP-2", 1, (1920, 1080)));
    engine.configure(1, 800, 600);
    engine.pool_ready(1, 1_920_000, true);
    let store = store_with(Source::Path("/img/a.jpg".to_string()), &[("DP-2", "/img/b.jpg")]);
    let actions = engine.config_changed(&vec!["backgrounds".to_string()], &store);
    assert_eq!(
        actions,
        vec![
            Action::SaveState { wallpaper: 0 },
            Action::SaveState { wallpaper: 1 },
            Action::EnsurePool { layer: 1, bytes: 1_920_000 },
        ]
    );
    assert_eq!(engine.wallpapers.len(), 2);
    assert_eq!(engine.wallpapers[0].entry.output, "DP-2");
    assert_eq!(engine.wallpapers[0].layers.len(), 1);
    let moved = engine.wallpapers[0].layers[0];
    assert_eq!((moved.id, moved.output), (1, 2));
    assert_eq!(moved.size, Some((800, 600)));
    assert_eq!(moved.pool, Some(1_920_000));
    assert!(moved.needs_redraw);
    assert_eq!(engine.wallpapers[1].entry.output, "all");
    assert_eq!(engine.wallpapers[1].layers.len(), 1);
    assert_eq!((engine.wallpapers[1].layers[0].id, engine.wallpapers[1].layers[0].output), (0, 1));
    assert_eq!(engine.next_layer, 2);
    assert!(!engine.gpu_renderer);
}

#[test]
fn layer_whose_source_turns_into_a_shader_builds_up_again() {
    let mut engine = CosmicBg::new(
        config_with(Source::Path("/img/a.jpg".to_string()), PowerSavingConfig::default()),
        None,
        true,
        6,
    );
    engine.new_output(1, output("DP-1", 1, (1920, 1080)));
    engine.new_output(2, output("DP-2", 1, (1920, 1080)));
    engine.configure(0, 800, 600);
    engine.pool_ready(0, 1_920_000, true);
    let shader = Source::Shader(shader_source("/s/x.wgsl", 30));
    let store = store_with(shader.clone(), &[]);
    let actions = engine.config_changed(&vec!["all".to_string()], &store);
    assert_eq!(
        actions,
        vec![
            Action::ReleasePool { layer: 0 },
            Action::SaveState { wallpaper: 0 },
            Action::InitRenderer,
            Action::BuildCanvas { layer: 0, wallpaper: 0 },
        ]
    );
    assert!(engine.gpu_renderer);
    let layers = &engine.wallpapers[0].layers;
    assert_eq!(layers.len(), 2);
    assert_eq!(layers[0].pool, None);
    assert_eq!(layers[0].gpu_state, None);
    assert_eq!(layers[0].size, Some((800, 600)));
    assert_eq!(layers[1].size, None);

    let source = shader_source("/s/x.wgsl", 30);
    engine.canvas_built(0, Some(built(&source, 0)), 0);
    engine.frame_result(0, true, SurfaceOutcome::Presented, 0);
    let same = engine.config_changed(&vec!["backgrounds".to_string()], &store);
    assert_eq!(same, vec![Action::SaveState { wallpaper: 0 }]);
    assert!(engine.wallpapers[0].layers[0].gpu_state.is_some());

    let other = store_with(Source::Shader(shader_source("/s/y.wgsl", 30)), &[]);
    let rebuilt = engine.config_changed(&vec!["all".to_string()], &other);
    assert_eq!(
        rebuilt,
        vec![
            Action::ReleaseGraphics { layer: 0 },
            Action::SaveState { wallpaper: 0 },
            Action::BuildCanvas { layer: 0, wallpaper: 0 },
        ]
    );
    assert_eq!(engine.wallpapers[0].layers[0].gpu_state, None);

    engine.canvas_built(0, Some(built(&source, 0)), 0);
    let still = store_with(Source::Path("/img/a.jpg".to_string()), &[]);
    let back = engine.config_changed(&vec!["all".to_string()], &still);
    assert_eq!(
        back,
        vec![
            Action::ReleaseGraphics { layer: 0 },
            Action::SaveState { wallpaper: 0 },
            Action::EnsurePool { layer: 0, bytes: 1_920_000 },
        ]
    );
}

#[test]
fn layers_of_gone_outputs_are_let_go_of_when_wallpapers_are_made_anew() {
    let mut engine = CosmicBg::new(
        config_with(Source::Path("/img/a.jpg".to_string()), PowerSavingConfig::default()),
        None,
        true,
        6,
    );
    engine.new_output(1, output("DP-1", 1, (1920, 1080)));
    engine.new_output(2, output("DP-2", 1, (1920, 1080)));
    engine.closed(0);
    engine.active_outputs.remove(1);
    let actions = engine.apply_backgrounds();
    assert_eq!(
        actions,
        vec![
            Action::DestroyLayer { layer: 1 },
            Action::CreateLayer { layer: 2, output: 1, fractional_scale: true },
            Action::SaveState { wallpaper: 0 },
        ]
    );
    assert_eq!(engine.wallpapers[0].layers.len(), 1);
    assert_eq!((engine.wallpapers[0].layers[0].id, engine.wallpapers[0].layers[0].output), (2, 1));
}

#[test]
fn config_keys_are_taken_in_order() {
    let mut engine = CosmicBg::new(
        config_with(Source::Path("/img/a.jpg".to_string()), PowerSavingConfig::default()),
        None,
        true,
        6,
    );
    let store = store_with(Source::Path("/img/a.jpg".to_string()), &[("DP-1", "/img/b.jpg")]);
    assert_eq!(engine.config_changed(&vec!["all".to_string()], &store), vec![]);
    assert_eq!(engine.config_changed(&vec!["unknown-key".to_string()], &store), vec![]);
    assert_eq!(engine.config_changed(&vec!["output.DP-1".to_string()], &store), vec![]);
    assert!(engine.config.backgrounds.is_empty());

    let reloaded = engine.config_changed(&vec!["backgrounds".to_string()], &store);
    assert_eq!(reloaded, vec![Action::SaveState { wallpaper: 0 }]);
    assert_eq!(engine.config.backgrounds.len(), 1);

    let mut changed = store_with(Source::Path("/img/c.jpg".to_string()), &[("DP-1", "/img/d.jpg")]);
    changed.set_same_on_all(false).unwrap();
    let actions = engine.config_changed(
        &vec!["all".to_string(), "output.DP-1".to_string(), "output.DP-7".to_string()],
        &changed,
    );
    assert_eq!(actions, vec![Action::SaveState { wallpaper: 0 }]);
    assert!(engine.config.default_background.source.same_as(&Source::Path("/img/c.jpg".to_string())));
    assert!(engine.config.backgrounds[0].source.same_as(&Source::Path("/img/d.jpg".to_string())));
    assert!(engine.wallpapers[0].entry.source.same_as(&Source::Path("/img/c.jpg".to_string())));

    let mut same = store_with(Source::Path("/img/c.jpg".to_string()), &[("DP-1", "/img/d.jpg")]);
    same.set_same_on_all(true).unwrap();
    engine.config_changed(&vec!["same-on-all".to_string()], &same);
    assert!(engine.config.same_on_all);
    assert!(engine.config.backgrounds.is_empty());
    engine.config_changed(&vec!["same-on-all".to_string()], &changed);
    assert!(!engine.config.same_on_all);
    assert_eq!(engine.config.backgrounds.len(), 1);
}

#[test]
fn power_saving_keys_swap_the_policy_without_rebuilding() {
    let mut engine = running_shader_engine(None, PowerSavingConfig::default(), 30);
    let mut store = Context::new();
    store.set_pause_on_lid_closed(false).unwrap();
    store.set_on_battery_action(OnBatteryAction::ReduceTo10Fps).unwrap();
    for key in [
        "pause-on-fullscreen",
        "pause-on-covered",
        "coverage-threshold",
        "adjust-on-battery",
        "on-battery-action",
        "pause-on-low-battery",
        "low-battery-threshold",
        "pause-on-lid-closed",
    ] {
        assert_eq!(engine.config_changed(&vec![key.to_string()], &store), vec![]);
    }
    assert_eq!(engine.config.power_saving, store.power_saving_config());
    assert!(!engine.config.power_saving.pause_on_lid_closed);
    assert!(engine.wallpapers[0].layers[0].gpu_state.is_some());
}

#[test]
fn watched_paths_join_and_leave_the_queue() {
    let mut config = config_with(Source::Path("/img".to_string()), PowerSavingConfig::default());
    config.backgrounds.push(Entry::new("DP-1".to_string(), Source::Path("/other".to_string())));
    let mut engine = CosmicBg::new(config, None, true, 6);
    let paths = |names: &[&str]| names.iter().map(|n| n.to_string()).collect::<Vec<String>>();
    engine.source_changed("all", WatchKind::Created, &paths(&["/img/a.jpg", "/img/b.jpg"]));
    assert_eq!(engine.wallpapers[1].image_queue, paths(&["/img/b.jpg", "/img/a.jpg"]));
    assert!(engine.wallpapers[0].image_queue.is_empty());
    engine.source_changed("all", WatchKind::RenamedInto, &paths(&["/img/a.jpg", "/img/c.jpg"]));
    assert_eq!(
        engine.wallpapers[1].image_queue,
        paths(&["/img/c.jpg", "/img/b.jpg", "/img/a.jpg"])
    );
    engine.source_changed("all", WatchKind::Modified, &paths(&["/img/b.jpg"]));
    assert_eq!(engine.wallpapers[1].image_queue.len(), 3);
    engine.source_changed("all", WatchKind::RemovedRenamedAway, &paths(&["/img/b.jpg", "/img/x.jpg"]));
    assert_eq!(engine.wallpapers[1].image_queue, paths(&["/img/c.jpg", "/img/a.jpg"]));
    engine.source_changed("DP-9", WatchKind::Created, &paths(&["/img/z.jpg"]));
    assert_eq!(engine.wallpapers[1].image_queue.len(), 2);
}

#[test]
fn next_image_comes_from_the_front_and_the_queue_is_filled_again() {
    let mut wallpaper = Wallpaper::new(Entry::new("all".to_string(), Source::Path("/img".to_string())));
    let known = vec!["/img/a.jpg".to_string(), "/img/b.jpg".to_string()];
    assert_eq!(wallpaper.next_image(&Vec::new()), None);
    assert_eq!(wallpaper.next_image(&known).as_deref(), Some("/img/a.jpg"));
    assert_eq!(wallpaper.image_queue, vec!["/img/b.jpg".to_string()]);
    assert_eq!(wallpaper.next_image(&known).as_deref(), Some("/img/b.jpg"));
    assert!(wallpaper.image_queue.is_empty());
    assert_eq!(wallpaper.next_image(&known).as_deref(), Some("/img/a.jpg"));
}
