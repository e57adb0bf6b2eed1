use glowberry_lib::config::{Config, Entry, ShaderContent, ShaderLanguage, ShaderSource, Source};
use glowberry_lib::engine::run::Event;
use glowberry_lib::engine::{
    Action, BackgroundEngine, CosmicBg, EngineConfig, OutputInfo, SurfaceOutcome,
};
use glowberry_lib::fragment_canvas::{FragmentCanvas, FramePass, PassLoad};
use glowberry_lib::power_saving::PowerSavingConfig;
use glowberry_lib::layer::{layer_setup, KeyboardInteractivity, ShellLayer};
use glowberry_lib::wallpaper::LayerSelector;

fn image_config() -> Config {
    Config {
        default_background: Entry::new("all".to_string(), Source::Path("/img/a.jpg".to_string())),
        backgrounds: Vec::new(),
        same_on_all: true,
        power_saving: PowerSavingConfig::default(),
    }
}

fn shader_source(path: &str, frame_rate: u8) -> ShaderSource {
    ShaderSource {
        shader: ShaderContent::Path(path.to_string()),
        background_image: None,
        language: ShaderLanguage::Wgsl,
        frame_rate,
    }
}

fn shader_config(path: &str, frame_rate: u8) -> Config {
    Config {
        default_background: Entry::new(
            "all".to_string(),
            Source::Shader(shader_source(path, frame_rate)),
        ),
        backgrounds: Vec::new(),
        same_on_all: true,
        power_saving: PowerSavingConfig::default(),
    }
}

fn output(name: &str, scale_factor: u32, mode: (u32, u32)) -> OutputInfo {
    OutputInfo { name: Some(name.to_string()), scale_factor, mode: Some(mode) }
}

fn canvas(frame_rate: u8, now: u64) -> FragmentCanvas {
    let source = ShaderSource {
        shader: ShaderContent::Code("fn main() {}".to_string()),
        background_image: None,
        language: ShaderLanguage::Wgsl,
        frame_rate,
    };
    FragmentCanvas::new(&source, Ok(String::new()), Ok(()), now).unwrap().0
}

#[test]
fn lib_engine_config_defaults() {
    let config = EngineConfig::default();
    assert!(config.enable_wayland);
}

#[test]
fn main_calls_library() {
    let _run: fn(EngineConfig, &mut CosmicBg, &Vec<Event>) -> Vec<Action> = BackgroundEngine::run;
    let _ = EngineConfig::default();
}

#[test]
fn shader_physical_size_prefers_layer_size_over_mode() {
    let size = Some((100, 50));
    let scale = Some(150);
    let mode = Some((1920, 1080));

    let result = CosmicBg::shader_physical_size(size, scale, mode);

    assert_eq!(result, (125, 62));
}

#[test]
fn shader_physical_size_uses_mode_when_size_missing() {
    let result = CosmicBg::shader_physical_size(None, Some(150), Some((1280, 720)));

    assert_eq!(result, (1280, 720));
}

#[test]
fn shader_physical_size_defaults_scale_to_120() {
    let result = CosmicBg::shader_physical_size(Some((1200, 800)), None, Some((640, 480)));

    assert_eq!(result, (1200, 800));
}

#[test]
fn shader_physical_size_falls_back_to_full_hd() {
    assert_eq!(CosmicBg::shader_physical_size(None, None, None), (1920, 1080));
    assert_eq!(CosmicBg::shader_physical_size(None, Some(240), None), (3840, 2160));
}

#[test]
fn shader_physical_size_holds_at_the_largest_length() {
    let result = CosmicBg::shader_physical_size(Some((u32::MAX, 1)), Some(240), None);
    assert_eq!(result, (u32::MAX, 2));
}

#[test]
fn missing_scale_counts_as_120() {
    for size in [Some((7, 9)), Some((1921, 1081)), None] {
        for mode in [Some((800, 600)), None] {
            assert_eq!(
                CosmicBg::shader_physical_size(size, None, mode),
                CosmicBg::shader_physical_size(size, Some(120), mode)
            );
        }
    }
}

#[test]
fn engine_starts_with_one_wallpaper_per_entry_and_the_default_last() {
    let mut config = image_config();
    config.backgrounds.push(Entry::new("DP-1".to_string(), Source::Path("/img/b.jpg".to_string())));
    let engine = CosmicBg::new(config, None, false, 5);
    assert_eq!(engine.wallpapers.len(), 2);
    assert_eq!(engine.wallpapers[0].entry.output, "DP-1");
    assert_eq!(engine.wallpapers[1].entry.output, "all");
    assert!(!engine.gpu_renderer);
    assert!(engine.active_outputs.is_empty());
    assert!(!engine.exit);
}

#[test]
fn engine_with_a_shader_entry_opens_the_device_at_once() {
    let engine = CosmicBg::new(shader_config("/s/x.wgsl", 30), None, true, 6);
    assert!(engine.gpu_renderer);
}

#[test]
fn named_output_goes_to_its_own_wallpaper() {
    let mut config = image_config();
    config.backgrounds.push(Entry::new("DP-1".to_string(), Source::Path("/img/b.jpg".to_string())));
    let mut engine = CosmicBg::new(config, None, true, 6);
    let actions = engine.new_output(10, output("DP-1", 1, (1920, 1080)));
    assert_eq!(
        actions,
        vec![
            Action::CreateLayer { layer: 0, output: 10, fractional_scale: true },
            Action::SaveState { wallpaper: 0 },
        ]
    );
    assert_eq!(engine.wallpapers[0].layers.len(), 1);
    assert_eq!(engine.wallpapers[1].layers.len(), 0);
    assert_eq!(engine.wallpapers[0].layers[0].output, 10);
    assert_eq!(engine.wallpapers[0].layers[0].fractional_scale, None);
}

#[test]
fn unknown_output_is_taken_by_the_wallpaper_for_all() {
    let mut config = image_config();
    config.backgrounds.push(Entry::new("DP-1".to_string(), Source::Path("/img/b.jpg".to_string())));
    let mut engine = CosmicBg::new(config, None, false, 5);
    let actions = engine.new_output(11, output("HDMI-A-1", 2, (3840, 2160)));
    assert_eq!(
        actions,
        vec![
            Action::CreateLayer { layer: 0, output: 11, fractional_scale: false },
            Action::SaveState { wallpaper: 1 },
        ]
    );
    assert_eq!(engine.wallpapers[1].layers.len(), 1);
    assert_eq!(engine.wallpapers[1].layers[0].fractional_scale, Some(240));

    let nameless = OutputInfo { name: None, scale_factor: 1, mode: None };
    engine.new_output(12, nameless);
    assert_eq!(engine.wallpapers[1].layers.len(), 2);
    assert_eq!(engine.wallpapers[0].layers.len(), 0);
}

#[test]
fn new_layer_takes_no_scale_from_a_compositor_that_scales_itself() {
    let mut engine = CosmicBg::new(image_config(), None, false, 6);
    engine.new_output(1, output("DP-1", 2, (100, 100)));
    assert_eq!(engine.wallpapers[0].layers[0].fractional_scale, None);
    assert_eq!(engine.wallpapers[0].layers[0].scale_factor, 2);
    assert_eq!(engine.wallpapers[0].layers[0].mode, Some((100, 100)));
}

fn layers_on(engine: &CosmicBg, output: u64) -> usize {
    engine
        .wallpapers
        .iter()
        .map(|w| w.layers.iter().filter(|l| l.output == output).count())
        .sum()
}

#[test]
fn every_active_output_has_exactly_one_layer() {
    let mut config = image_config();
    config.backgrounds.push(Entry::new("DP-1".to_string(), Source::Path("/img/b.jpg".to_string())));
    let mut engine = CosmicBg::new(config, None, true, 6);
    engine.new_output(1, output("DP-1", 1, (1920, 1080)));
    engine.new_output(2, output("DP-2", 1, (1920, 1080)));
    engine.new_output(3, output("DP-3", 1, (1920, 1080)));
    engine.configure(0, 1920, 1080);
    engine.preferred_scale(1, 180);
    engine.output_destroyed(2);
    engine.update_output(3, output("DP-3", 2, (2560, 1440)));
    engine.frame(0, 5);
    let active: Vec<u64> = engine.active_outputs.iter().map(|o| o.id).collect();
    assert_eq!(active, vec![1, 3]);
    assert_eq!(layers_on(&engine, 1), 1);
    assert_eq!(layers_on(&engine, 3), 1);
    assert_eq!(layers_on(&engine, 2), 0);
}

#[test]
fn destroyed_output_drops_its_layers_and_pending_frames() {
    let mut engine = CosmicBg::new(shader_config("/s/x.wgsl", 30), None, true, 6);
    engine.new_output(1, output("DP-1", 1, (1920, 1080)));
    engine.new_output(2, output("DP-2", 1, (1920, 1080)));
    engine.configure(0, 1920, 1080);
    engine.canvas_built(0, Some(canvas(30, 0)), 0);
    let actions = engine.output_destroyed(1);
    assert_eq!(
        actions,
        vec![Action::ForgetOutput { output: 1 }, Action::DestroyLayer { layer: 0 }]
    );
    assert_eq!(layers_on(&engine, 1), 0);
    assert_eq!(engine.find_layer(LayerSelector::Id(0)), None);
    assert_eq!(engine.frame(0, 1_000_000_000), vec![]);
    assert_eq!(engine.frame_result(0, false, SurfaceOutcome::Presented, 1_000_000_000), vec![]);
    assert_eq!(engine.frame_result(0, true, SurfaceOutcome::Lost, 1_000_000_000), vec![]);
    assert_eq!(layers_on(&engine, 2), 1);
}

#[test]
fn destroying_an_unknown_output_changes_nothing() {
    let mut engine = CosmicBg::new(image_config(), None, true, 6);
    engine.new_output(1, output("DP-1", 1, (1920, 1080)));
    assert_eq!(engine.output_destroyed(9), vec![]);
    assert_eq!(engine.active_outputs.len(), 1);
    assert_eq!(layers_on(&engine, 1), 1);
}

#[test]
fn closed_layer_is_dropped() {
    let mut engine = CosmicBg::new(image_config(), None, true, 6);
    engine.new_output(1, output("DP-1", 1, (1920, 1080)));
    engine.new_output(2, output("DP-2", 1, (1920, 1080)));
    assert_eq!(engine.closed(1), vec![Action::DestroyLayer { layer: 1 }]);
    assert_eq!(engine.wallpapers[0].layers.len(), 1);
    assert_eq!(engine.wallpapers[0].layers[0].id, 0);
    assert_eq!(engine.closed(1), vec![]);
}

#[test]
fn configure_of_a_still_layer_asks_for_its_pool() {
    let mut engine = CosmicBg::new(image_config(), None, true, 6);
    engine.new_output(1, output("DP-1", 1, (1920, 1080)));
    assert_eq!(engine.configure(0, 640, 480), vec![Action::EnsurePool { layer: 0, bytes: 1_228_800 }]);
    let layer = engine.wallpapers[0].layers[0];
    assert_eq!(layer.size, Some((640, 480)));
    assert!(layer.needs_redraw);
    assert_eq!(layer.pool, None);
    assert_eq!(engine.pool_ready(0, 1_228_800, false), vec![]);
    assert_eq!(engine.wallpapers[0].layers[0].pool, None);
    assert_eq!(engine.pool_ready(0, 1_228_800, true), vec![Action::Draw { wallpaper: 0 }]);
    assert_eq!(engine.wallpapers[0].layers[0].pool, Some(1_228_800));
    assert_eq!(engine.configure(7, 640, 480), vec![]);
}

#[test]
fn configure_of_a_shader_layer_opens_the_device_when_needed() {
    let mut engine = CosmicBg::new(image_config(), None, true, 6);
    engine.wallpapers[0].entry.source = Source::Shader(shader_source("/s/x.wgsl", 30));
    engine.new_output(1, output("DP-1", 1, (1920, 1080)));
    assert!(!engine.gpu_renderer);
    assert_eq!(
        engine.configure(0, 800, 600),
        vec![Action::InitRenderer, Action::BuildCanvas { layer: 0, wallpaper: 0 }]
    );
    assert!(engine.gpu_renderer);
    assert_eq!(engine.configure(0, 800, 600), vec![Action::BuildCanvas { layer: 0, wallpaper: 0 }]);
}

#[test]
fn configure_of_a_running_shader_layer_resizes_its_surface() {
    let mut engine = CosmicBg::new(shader_config("/s/x.wgsl", 30), None, true, 6);
    engine.new_output(1, output("DP-1", 1, (1920, 1080)));
    engine.configure(0, 800, 600);
    engine.canvas_built(0, Some(canvas(30, 0)), 0);
    engine.preferred_scale(0, 150);
    let actions = engine.configure(0, 1000, 500);
    assert_eq!(
        actions,
        vec![
            Action::ConfigureSurface { layer: 0, width: 1250, height: 625 },
            Action::UpdateResolution { layer: 0, width: 1250, height: 625 },
            Action::SetViewportDestination { layer: 0, width: 1000, height: 500 },
            Action::RequestFrame { layer: 0 },
            Action::Commit { layer: 0 },
        ]
    );
    let gpu = engine.wallpapers[0].layers[0].gpu_state.unwrap();
    assert_eq!((gpu.surface_width, gpu.surface_height), (1250, 625));
    assert_eq!((gpu.canvas.resolution_width, gpu.canvas.resolution_height), (1250, 625));
}

#[test]
fn surface_of_every_shader_layer_has_the_physical_size() {
    let mut engine = CosmicBg::new(shader_config("/s/x.wgsl", 30), None, false, 5);
    engine.new_output(1, output("DP-1", 2, (1920, 1080)));
    engine.configure(0, 960, 540);
    engine.canvas_built(0, Some(canvas(30, 0)), 0);
    engine.scale_factor_changed(0, 3);
    engine.update_output(1, output("DP-1", 1, (1280, 720)));
    engine.configure(0, 1280, 720);
    engine.frame_result(0, false, SurfaceOutcome::Outdated, 9);
    for wallpaper in &engine.wallpapers {
        for layer in &wallpaper.layers {
            let gpu = layer.gpu_state.unwrap();
            assert_eq!(
                (gpu.surface_width, gpu.surface_height),
                CosmicBg::shader_layer_physical_size(layer)
            );
            assert_eq!((gpu.surface_width, gpu.surface_height), (1280, 720));
        }
    }
}

#[test]
fn integer_scale_counts_only_without_fractional_scales() {
    let mut engine = CosmicBg::new(image_config(), None, true, 6);
    engine.new_output(1, output("DP-1", 1, (1920, 1080)));
    assert_eq!(engine.scale_factor_changed(0, 2), vec![]);
    assert_eq!(engine.wallpapers[0].layers[0].fractional_scale, None);

    let mut engine = CosmicBg::new(image_config(), None, false, 6);
    engine.new_output(1, output("DP-1", 1, (1920, 1080)));
    assert_eq!(engine.scale_factor_changed(0, 2), vec![Action::Draw { wallpaper: 0 }]);
    assert_eq!(engine.wallpapers[0].layers[0].fractional_scale, Some(240));
}

#[test]
fn output_update_rescales_only_where_scales_come_with_the_output() {
    let mut engine = CosmicBg::new(image_config(), None, false, 5);
    engine.new_output(1, output("DP-1", 1, (1920, 1080)));
    let actions = engine.update_output(1, output("DP-1", 2, (3840, 2160)));
    assert_eq!(actions, vec![Action::Draw { wallpaper: 0 }]);
    let layer = engine.wallpapers[0].layers[0];
    assert_eq!(layer.fractional_scale, Some(240));
    assert_eq!(layer.mode, Some((3840, 2160)));
    assert_eq!(engine.active_outputs[0].info.scale_factor, 2);

    let mut engine = CosmicBg::new(image_config(), None, true, 5);
    engine.new_output(1, output("DP-1", 1, (1920, 1080)));
    assert_eq!(engine.update_output(1, output("DP-1", 2, (3840, 2160))), vec![]);
    assert_eq!(engine.wallpapers[0].layers[0].mode, Some((1920, 1080)));
    assert_eq!(engine.active_outputs[0].info.mode, Some((3840, 2160)));
}

#[test]
fn frame_of_a_still_layer_asks_for_nothing() {
    let mut engine = CosmicBg::new(image_config(), None, true, 6);
    engine.new_output(1, output("DP-1", 1, (1920, 1080)));
    assert_eq!(engine.frame(0, 1_000_000_000), vec![]);
}

#[test]
fn frame_is_rendered_only_when_due() {
    let mut engine = CosmicBg::new(shader_config("/s/x.wgsl", 10), None, true, 6);
    engine.new_output(1, output("DP-1", 1, (1920, 1080)));
    engine.configure(0, 1920, 1080);
    engine.canvas_built(0, Some(canvas(10, 1_000)), 1_000);
    engine.frame_result(0, true, SurfaceOutcome::Presented, 2_000);
    let rearm = vec![Action::RequestFrame { layer: 0 }, Action::Commit { layer: 0 }];
    assert_eq!(engine.frame(0, 2_000), rearm);
    assert_eq!(engine.frame(0, 2_000 + 50_000_000), rearm);
    assert_eq!(engine.frame(0, 2_000 + 99_999_999), rearm);
    assert_eq!(
        engine.frame(0, 2_000 + 100_000_000),
        vec![Action::RenderFrame {
            layer: 0,
            width: 1920,
            height: 1080,
            pass: FramePass { elapsed_nanos: 100_001_000, load: PassLoad::ClearTransparent, vertex_count: 4 },
            first: false,
        }]
    );
}

#[test]
fn run_takes_events_in_turn_until_asked_to_end() {
    let mut engine = CosmicBg::new(image_config(), None, true, 6);
    let events = vec![
        Event::NewOutput { output: 1, info: output("DP-1", 1, (1920, 1080)) },
        Event::Configure { layer: 0, width: 10, height: 10 },
        Event::Stop,
        Event::Configure { layer: 0, width: 20, height: 20 },
    ];
    let actions = BackgroundEngine::run(EngineConfig::default(), &mut engine, &events);
    assert_eq!(
        actions,
        vec![
            Action::CreateLayer { layer: 0, output: 1, fractional_scale: true },
            Action::SaveState { wallpaper: 0 },
            Action::EnsurePool { layer: 0, bytes: 400 },
        ]
    );
    assert!(engine.exit);
    assert_eq!(engine.wallpapers[0].layers[0].size, Some((10, 10)));
}

#[test]
fn run_without_a_compositor_takes_nothing_in() {
    let mut engine = CosmicBg::new(image_config(), None, true, 6);
    let events = vec![Event::NewOutput { output: 1, info: output("DP-1", 1, (1920, 1080)) }];
    let actions =
        BackgroundEngine::run(EngineConfig { enable_wayland: false }, &mut engine, &events);
    assert_eq!(actions, vec![]);
    assert!(engine.active_outputs.is_empty());
}

#[test]
fn backgrounds_are_anchored_to_all_edges_and_take_no_input() {
    let setup = layer_setup();
    assert_eq!(setup.layer, ShellLayer::Background);
    assert!(setup.anchor_top && setup.anchor_bottom && setup.anchor_left && setup.anchor_right);
    assert_eq!(setup.exclusive_zone, -1);
    assert_eq!(setup.keyboard_interactivity, KeyboardInteractivity::Never);
}

#[test]
fn canvas_for_a_layer_without_size_is_not_attached() {
    let mut engine = CosmicBg::new(shader_config("/s/x.wgsl", 30), None, true, 6);
    engine.new_output(1, output("DP-1", 1, (1920, 1080)));
    assert_eq!(engine.canvas_built(0, Some(canvas(30, 0)), 0), vec![]);
    assert_eq!(engine.wallpapers[0].layers[0].gpu_state, None);
    assert_eq!(engine.canvas_built(0, None, 0), vec![]);
    assert_eq!(engine.canvas_built(5, Some(canvas(30, 0)), 0), vec![]);
}

#[test]
fn drawn_wallpaper_needs_no_redraw() {
    let mut engine = CosmicBg::new(image_config(), None, true, 6);
    engine.new_output(1, output("DP-1", 1, (1920, 1080)));
    engine.new_output(2, output("DP-2", 1, (1920, 1080)));
    engine.configure(0, 10, 10);
    engine.configure(1, 10, 10);
    engine.pool_ready(0, 400, true);
    engine.drawn(0);
    assert!(!engine.wallpapers[0].layers[0].needs_redraw);
    assert!(engine.wallpapers[0].layers[1].needs_redraw);
    engine.drawn(7);
    assert_eq!(engine.output_names(0), vec!["DP-1".to_string(), "DP-2".to_string()]);
    assert_eq!(engine.output_names(3), Vec::<String>::new());
}
