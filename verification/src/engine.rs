//! The engine: what is bound to which output, and what each event from the
//! compositor, the graphics device, the configuration and the power service
//! leads to.
//!
//! The engine never touches the outside. Each handler takes one event,
//! changes the engine's state and returns the [`Action`]s that the caller is
//! to perform, in order. What an action's outcome is comes back as the next
//! event.

use vstd::prelude::*;

pub mod binding;
pub mod laws;
pub mod outputs;
pub mod reload;
pub mod run;

use crate::config::{Config, ConfigView};
use crate::fragment_canvas::{FragmentCanvas, FramePass};
pub use crate::layer::{shader_physical_size, CosmicBgLayer, GpuLayerState};
use crate::layer::{physical_size, scale_from_factor, whole_scale};
use crate::upower::{
    effective_frame_rate, imposed_frame_rate, pauses, should_pause_animation, PowerState,
};
use crate::wallpaper::{
    first_picked, lemma_first_picked, LayerSelector, Wallpaper, WallpaperView,
};

verus! {

/// How the engine is started.
#[derive(Debug)]
pub struct EngineConfig {
    /// Whether the engine binds to a compositor at all.
    pub enable_wayland: bool,
}

impl Default for EngineConfig {
    fn default() -> (r: Self)
        ensures
            r.enable_wayland,
    {
        EngineConfig { enable_wayland: true }
    }
}

/// The engine: [`BackgroundEngine::run`] drives a [`CosmicBg`] over events.
#[derive(Debug)]
pub struct BackgroundEngine;

/// What is known of an output.
#[derive(Debug)]
pub struct OutputInfo {
    pub name: Option<String>,
    /// The integer scale factor.
    pub scale_factor: u32,
    /// The current mode, in physical pixels.
    pub mode: Option<(u32, u32)>,
}

pub struct OutputInfoView {
    pub name: Option<Seq<char>>,
    pub scale_factor: u32,
    pub mode: Option<(u32, u32)>,
}

impl View for OutputInfo {
    type V = OutputInfoView;

    open spec fn view(&self) -> OutputInfoView {
        OutputInfoView {
            name: match self.name {
                Some(name) => Some(name@),
                None => None,
            },
            scale_factor: self.scale_factor,
            mode: self.mode,
        }
    }
}

/// An output that the compositor has announced and not taken back.
#[derive(Debug)]
pub struct ActiveOutput {
    /// The handle of the output.
    pub id: u64,
    pub info: OutputInfo,
}

pub struct ActiveOutputView {
    pub id: u64,
    pub info: OutputInfoView,
}

impl View for ActiveOutput {
    type V = ActiveOutputView;

    open spec fn view(&self) -> ActiveOutputView {
        ActiveOutputView { id: self.id, info: self.info@ }
    }
}

/// How presenting a frame went.
#[derive(Debug, Clone, Copy, PartialEq, Eq, Structural)]
pub enum SurfaceOutcome {
    /// A frame was rendered and presented.
    Presented,
    /// No surface texture came in time.
    Timeout,
    /// The surface was lost.
    Lost,
    /// The surface no longer fits what it is shown on.
    Outdated,
    /// The device is out of memory.
    OutOfMemory,
    /// Another error.
    Other,
}

impl SurfaceOutcome {
    /// Whether the surface has to be configured again.
    pub open spec fn stale(self) -> bool {
        self == SurfaceOutcome::Lost || self == SurfaceOutcome::Outdated
    }
}

/// Something for the caller to do.
#[derive(Debug, Clone, Copy, PartialEq, Eq)]
pub enum Action {
    /// Create a background layer surface on an output, anchored to all
    /// edges, without exclusive zone or keyboard input, with a viewport and,
    /// if asked for, a fractional-scale object.
    CreateLayer { layer: u64, output: u64, fractional_scale: bool },
    /// Let go of a layer surface and all that hangs on it.
    DestroyLayer { layer: u64 },
    /// Write down what each output of a wallpaper shows.
    SaveState { wallpaper: usize },
    /// Erase what was written down for an output.
    ForgetOutput { output: u64 },
    /// Have a pixel buffer pool of `bytes` bytes for a layer, by making one
    /// or by resizing the one it has.
    EnsurePool { layer: u64, bytes: usize },
    /// Draw a still wallpaper on those of its layers that need it.
    Draw { wallpaper: usize },
    /// Open the graphics device.
    InitRenderer,
    /// Read what the shader of a wallpaper needs and make the canvas for a
    /// layer.
    BuildCanvas { layer: u64, wallpaper: usize },
    /// Create the graphics surface of a layer, configure it at a size and
    /// build the render pipeline for it.
    CreateSurface { layer: u64, width: u32, height: u32 },
    /// Configure the graphics surface of a layer at a size.
    ConfigureSurface { layer: u64, width: u32, height: u32 },
    /// Hand the shader of a layer its resolution.
    UpdateResolution { layer: u64, width: u32, height: u32 },
    /// Acquire the surface texture of a layer, render one pass to it and
    /// present it.
    RenderFrame { layer: u64, width: u32, height: u32, pass: FramePass, first: bool },
    /// Set the size that the compositor shows a layer at.
    SetViewportDestination { layer: u64, width: u32, height: u32 },
    /// Let go of the graphics surface and the pipeline of a layer.
    ReleaseGraphics { layer: u64 },
    /// Let go of the pixel buffer pool of a layer.
    ReleasePool { layer: u64 },
    /// Ask the compositor for the next frame callback of a layer.
    RequestFrame { layer: u64 },
    /// Commit the surface of a layer.
    Commit { layer: u64 },
}

/// The state of the engine.
#[derive(Debug)]
pub struct CosmicBg {
    pub config: Config,
    /// The wallpapers; the one for all outputs is the last.
    pub wallpapers: Vec<Wallpaper>,
    pub active_outputs: Vec<ActiveOutput>,
    /// Whether the graphics device is open.
    pub gpu_renderer: bool,
    /// The latest power state; `None` without a power monitor.
    pub power: Option<PowerState>,
    /// Whether the compositor offers fractional scales.
    pub fractional_scale_manager: bool,
    /// The version of the compositor's surface protocol.
    pub compositor_version: u32,
    /// The handle that the next layer gets.
    pub next_layer: u64,
    /// Whether the event loop is to end.
    pub exit: bool,
}

pub struct CosmicBgView {
    pub config: ConfigView,
    pub wallpapers: Seq<WallpaperView>,
    pub active_outputs: Seq<ActiveOutputView>,
    pub gpu_renderer: bool,
    pub power: Option<PowerState>,
    pub fractional_scale_manager: bool,
    pub compositor_version: u32,
    pub next_layer: u64,
    pub exit: bool,
}

/// The views of a list of wallpapers, in order.
pub open spec fn wallpaper_views(wallpapers: Seq<Wallpaper>) -> Seq<WallpaperView> {
    wallpapers.map_values(|w: Wallpaper| w@)
}

/// The views of a list of outputs, in order.
pub open spec fn output_views(outputs: Seq<ActiveOutput>) -> Seq<ActiveOutputView> {
    outputs.map_values(|o: ActiveOutput| o@)
}

impl View for CosmicBg {
    type V = CosmicBgView;

    open spec fn view(&self) -> CosmicBgView {
        CosmicBgView {
            config: self.config@,
            wallpapers: wallpaper_views(self.wallpapers@),
            active_outputs: output_views(self.active_outputs@),
            gpu_renderer: self.gpu_renderer,
            power: self.power,
            fractional_scale_manager: self.fractional_scale_manager,
            compositor_version: self.compositor_version,
            next_layer: self.next_layer,
            exit: self.exit,
        }
    }
}

/// Where the first layer that `selector` picks is, among the first `limit`
/// wallpapers: the position of the first wallpaper that has such a layer,
/// and of the first such layer in it.
pub open spec fn first_shown(wallpapers: Seq<WallpaperView>, selector: LayerSelector, limit: int) -> Option<
    (int, int),
>
    decreases limit,
{
    if limit <= 0 {
        None
    } else {
        match first_shown(wallpapers, selector, limit - 1) {
            Some(place) => Some(place),
            None => if limit <= wallpapers.len() {
                match first_picked(
                    wallpapers[limit - 1].layers,
                    selector,
                    wallpapers[limit - 1].layers.len() as int,
                ) {
                    Some(j) => Some((limit - 1, j)),
                    None => None,
                }
            } else {
                None
            },
        }
    }
}

/// A layer found among the first `limit` wallpapers is found among more.
pub proof fn lemma_first_shown_stays(
    wallpapers: Seq<WallpaperView>,
    selector: LayerSelector,
    limit: int,
    larger: int,
)
    requires
        limit <= larger <= wallpapers.len(),
        first_shown(wallpapers, selector, limit) is Some,
    ensures
        first_shown(wallpapers, selector, larger) == first_shown(wallpapers, selector, limit),
    decreases larger - limit,
{
    if limit < larger {
        lemma_first_shown_stays(wallpapers, selector, limit, larger - 1);
    }
}

/// What [`first_shown`] finds is a place of a layer that `selector` picks.
pub proof fn lemma_first_shown(wallpapers: Seq<WallpaperView>, selector: LayerSelector, limit: int)
    requires
        limit <= wallpapers.len(),
    ensures
        match first_shown(wallpapers, selector, limit) {
            Some((i, j)) => 0 <= i < limit && 0 <= j < wallpapers[i].layers.len()
                && selector.picks(wallpapers[i].layers[j]),
            None => forall|i: int, j: int|
                0 <= i < limit && 0 <= j < wallpapers[i].layers.len() ==> !selector.picks(
                    #[trigger] wallpapers[i].layers[j],
                ),
        },
    decreases limit,
{
    if limit > 0 {
        lemma_first_shown(wallpapers, selector, limit - 1);
        let layers = wallpapers[limit - 1].layers;
        lemma_first_picked(layers, selector, layers.len() as int);
    }
}

/// What is asked for after the size or the scale of an animated layer
/// changed: its surface configured at the new physical size, its shader told
/// so, the viewport set to the logical size if that is known, and the next
/// frame. Nothing for a layer without graphics state.
pub open spec fn resize_actions(layer: CosmicBgLayer) -> Seq<Action> {
    match layer.gpu_state {
        None => Seq::empty(),
        Some(_) => {
            let (width, height) = layer.spec_physical_size();
            seq![
                Action::ConfigureSurface { layer: layer.id, width, height },
                Action::UpdateResolution { layer: layer.id, width, height },
            ] + viewport_actions(layer) + rearm_actions(layer.id)
        },
    }
}

/// Setting the viewport of a layer to its logical size, where that is known.
pub open spec fn viewport_actions(layer: CosmicBgLayer) -> Seq<Action> {
    match layer.size {
        Some((width, height)) => seq![
            Action::SetViewportDestination { layer: layer.id, width, height },
        ],
        None => Seq::empty(),
    }
}

/// Asking for the next frame callback of a layer and committing it.
pub open spec fn rearm_actions(layer: u64) -> Seq<Action> {
    seq![Action::RequestFrame { layer }, Action::Commit { layer }]
}

/// Bytes of a pixel buffer of `width` by `height` pixels of four bytes,
/// where that many can be addressed.
pub open spec fn pool_bytes(width: u32, height: u32) -> Option<usize> {
    if width * height * 4 <= usize::MAX {
        Some((width * height * 4) as usize)
    } else {
        None
    }
}

impl CosmicBgView {
    /// Where the first layer that `selector` picks is.
    pub open spec fn find_layer(self, selector: LayerSelector) -> Option<(int, int)> {
        first_shown(self.wallpapers, selector, self.wallpapers.len() as int)
    }

    /// The state with the layer at place `(i, j)` replaced.
    pub open spec fn with_layer(self, i: int, j: int, layer: CosmicBgLayer) -> CosmicBgView {
        CosmicBgView {
            wallpapers: self.wallpapers.update(
                i,
                WallpaperView {
                    layers: self.wallpapers[i].layers.update(j, layer),
                    ..self.wallpapers[i]
                },
            ),
            ..self
        }
    }

    /// The state, and what is asked for, after the layer at place `(i, j)`
    /// became `layer` by a change of its size or scale.
    ///
    /// An animated layer is resized if the graphics device is open, and left
    /// alone if not; a still one is drawn again.
    pub open spec fn refreshed(self, i: int, j: int, layer: CosmicBgLayer) -> (
        CosmicBgView,
        Seq<Action>,
    ) {
        if self.wallpapers[i].is_shader() {
            if self.gpu_renderer {
                (self.with_layer(i, j, layer.resized()), resize_actions(layer))
            } else {
                (self.with_layer(i, j, layer), Seq::empty())
            }
        } else {
            (self.with_layer(i, j, layer), seq![Action::Draw { wallpaper: i as usize }])
        }
    }

    /// The compositor changed the integer scale of a layer's surface.
    ///
    /// Counts only where the compositor offers no fractional scales: the
    /// layer's scale becomes the factor in 120ths and the layer is refreshed.
    pub open spec fn scale_factor_changed(self, layer: u64, factor: u32) -> (
        CosmicBgView,
        Seq<Action>,
    ) {
        if self.fractional_scale_manager {
            (self, Seq::empty())
        } else {
            match self.find_layer(LayerSelector::Id(layer)) {
                Some((i, j)) => self.refreshed(
                    i,
                    j,
                    CosmicBgLayer {
                        fractional_scale: Some(whole_scale(factor)),
                        ..self.wallpapers[i].layers[j]
                    },
                ),
                None => (self, Seq::empty()),
            }
        }
    }

    /// The compositor announced the fractional scale, in 120ths, that it
    /// prefers for a layer's surface: the layer takes it and is refreshed.
    pub open spec fn preferred_scale(self, layer: u64, scale: u32) -> (CosmicBgView, Seq<Action>) {
        match self.find_layer(LayerSelector::Id(layer)) {
            Some((i, j)) => self.refreshed(
                i,
                j,
                CosmicBgLayer { fractional_scale: Some(scale), ..self.wallpapers[i].layers[j] },
            ),
            None => (self, Seq::empty()),
        }
    }

    /// The compositor gave a layer's surface its logical size.
    ///
    /// The layer records the size and that it needs a redraw. A still layer
    /// asks for a pool of four bytes per pixel. An animated layer without
    /// graphics state asks for its canvas, and for the graphics device if
    /// that is not open yet; one with graphics state is resized.
    pub open spec fn configure(self, layer: u64, width: u32, height: u32) -> (
        CosmicBgView,
        Seq<Action>,
    ) {
        match self.find_layer(LayerSelector::Id(layer)) {
            Some((i, j)) => {
                let sized = CosmicBgLayer {
                    size: Some((width, height)),
                    needs_redraw: true,
                    ..self.wallpapers[i].layers[j]
                };
                if self.wallpapers[i].is_shader() {
                    if sized.gpu_state is None {
                        (
                            CosmicBgView { gpu_renderer: true, ..self.with_layer(i, j, sized) },
                            (if self.gpu_renderer {
                                Seq::empty()
                            } else {
                                seq![Action::InitRenderer]
                            }) + seq![Action::BuildCanvas { layer, wallpaper: i as usize }],
                        )
                    } else if self.gpu_renderer {
                        (self.with_layer(i, j, sized.resized()), resize_actions(sized))
                    } else {
                        (self.with_layer(i, j, sized), Seq::empty())
                    }
                } else {
                    (
                        self.with_layer(i, j, sized),
                        match pool_bytes(width, height) {
                            Some(bytes) => seq![Action::EnsurePool { layer, bytes }],
                            None => Seq::empty(),
                        },
                    )
                }
            },
            None => (self, Seq::empty()),
        }
    }

    /// The pool that was asked for a layer is there, or could not be had.
    ///
    /// With its pool a still layer is drawn; without, nothing happens.
    pub open spec fn pool_ready(self, layer: u64, bytes: usize, ok: bool) -> (
        CosmicBgView,
        Seq<Action>,
    ) {
        match self.find_layer(LayerSelector::Id(layer)) {
            Some((i, j)) => if ok && !self.wallpapers[i].is_shader() {
                (
                    self.with_layer(
                        i,
                        j,
                        CosmicBgLayer { pool: Some(bytes), ..self.wallpapers[i].layers[j] },
                    ),
                    seq![Action::Draw { wallpaper: i as usize }],
                )
            } else {
                (self, Seq::empty())
            },
            None => (self, Seq::empty()),
        }
    }

    /// The still wallpaper at `wallpaper` was drawn: none of its layers that
    /// have a pool needs a redraw any more.
    pub open spec fn drawn(self, wallpaper: usize) -> CosmicBgView {
        if wallpaper < self.wallpapers.len() {
            CosmicBgView {
                wallpapers: self.wallpapers.update(
                    wallpaper as int,
                    self.wallpapers[wallpaper as int].drawn(),
                ),
                ..self
            }
        } else {
            self
        }
    }

    /// The canvas that was asked for a layer was made at `now`, or could not
    /// be.
    ///
    /// With its canvas an animated layer that has its size gets its graphics
    /// state: a surface at the layer's physical size, the shader told that
    /// size, and a first frame at once. Without, the layer stays as it is, to
    /// try again at the next configure.
    pub open spec fn canvas_built(self, layer: u64, canvas: Option<FragmentCanvas>, now: u64) -> (
        CosmicBgView,
        Seq<Action>,
    ) {
        match self.find_layer(LayerSelector::Id(layer)) {
            Some((i, j)) => match canvas {
                Some(made) => if self.wallpapers[i].is_shader() && self.gpu_renderer
                    && self.wallpapers[i].layers[j].size is Some {
                    let old = self.wallpapers[i].layers[j];
                    let (width, height) = old.spec_physical_size();
                    let canvas = made.with_resolution(width, height);
                    (
                        self.with_layer(
                            i,
                            j,
                            CosmicBgLayer {
                                pool: None,
                                gpu_state: Some(
                                    GpuLayerState {
                                        surface_width: width,
                                        surface_height: height,
                                        canvas,
                                    },
                                ),
                                ..old
                            },
                        ),
                        seq![
                            Action::CreateSurface { layer, width, height },
                            Action::UpdateResolution { layer, width, height },
                            Action::RenderFrame {
                                layer,
                                width,
                                height,
                                pass: canvas.frame_pass(now),
                                first: true,
                            },
                        ],
                    )
                } else {
                    (self, Seq::empty())
                },
                None => (self, Seq::empty()),
            },
            None => (self, Seq::empty()),
        }
    }

    /// The compositor says that a layer's surface can be drawn again, at
    /// `now`.
    ///
    /// A still layer asks for nothing. An animated layer first takes the
    /// frame rate that power saving imposes, or its configured one if none
    /// is imposed. It asks for a frame if power saving does not pause it,
    /// its frame interval has passed and the graphics device is open; else
    /// it only asks for the next callback.
    pub open spec fn frame(self, layer: u64, now: u64) -> (CosmicBgView, Seq<Action>) {
        match self.find_layer(LayerSelector::Id(layer)) {
            Some((i, j)) => match self.wallpapers[i].layers[j].gpu_state {
                Some(gpu) => {
                    let canvas = gpu.canvas.overridden(
                        imposed_frame_rate(self.power, self.config.power_saving),
                    );
                    let paced = self.with_layer(
                        i,
                        j,
                        CosmicBgLayer {
                            gpu_state: Some(GpuLayerState { canvas, ..gpu }),
                            ..self.wallpapers[i].layers[j]
                        },
                    );
                    if !pauses(self.power, self.config.power_saving) && canvas.frame_due(now)
                        && self.gpu_renderer {
                        (
                            paced,
                            seq![
                                Action::RenderFrame {
                                    layer,
                                    width: gpu.surface_width,
                                    height: gpu.surface_height,
                                    pass: canvas.frame_pass(now),
                                    first: false,
                                },
                            ],
                        )
                    } else {
                        (paced, rearm_actions(layer))
                    }
                },
                None => (self, Seq::empty()),
            },
            None => (self, Seq::empty()),
        }
    }

    /// A frame that was asked for a layer was presented at `now`, or failed.
    ///
    /// A presented frame is recorded. After a frame failed on a lost or
    /// outdated surface the surface is configured again at the size it has
    /// and the shader is told that size; any other failure only drops the
    /// frame. The first frame of a layer never leads to reconfiguring, and
    /// is followed by setting the viewport to the logical size. In every
    /// case the next frame callback is asked for.
    pub open spec fn frame_result(self, layer: u64, first: bool, outcome: SurfaceOutcome, now: u64) -> (
        CosmicBgView,
        Seq<Action>,
    ) {
        match self.find_layer(LayerSelector::Id(layer)) {
            Some((i, j)) => {
                let old = self.wallpapers[i].layers[j];
                match old.gpu_state {
                    Some(gpu) => {
                        let recover = !first && outcome.stale();
                        let canvas = if outcome == SurfaceOutcome::Presented {
                            gpu.canvas.rendered_at(now)
                        } else if recover {
                            gpu.canvas.with_resolution(gpu.surface_width, gpu.surface_height)
                        } else {
                            gpu.canvas
                        };
                        (
                            self.with_layer(
                                i,
                                j,
                                CosmicBgLayer {
                                    gpu_state: Some(GpuLayerState { canvas, ..gpu }),
                                    ..old
                                },
                            ),
                            (if recover {
                                seq![
                                    Action::ConfigureSurface {
                                        layer,
                                        width: gpu.surface_width,
                                        height: gpu.surface_height,
                                    },
                                    Action::UpdateResolution {
                                        layer,
                                        width: gpu.surface_width,
                                        height: gpu.surface_height,
                                    },
                                ]
                            } else {
                                Seq::empty()
                            }) + (if first {
                                viewport_actions(old)
                            } else {
                                Seq::empty()
                            }) + rearm_actions(layer),
                        )
                    },
                    None => (self, Seq::empty()),
                }
            },
            None => (self, Seq::empty()),
        }
    }
}

impl CosmicBg {
    /// Where the first layer that `selector` picks is.
    pub fn find_layer(&self, selector: LayerSelector) -> (r: Option<(usize, usize)>)
        ensures
            match r {
                Some((i, j)) => self@.find_layer(selector) == Some((i as int, j as int)) && i
                    < self.wallpapers@.len() && j < self.wallpapers@[i as int].layers@.len(),
                None => self@.find_layer(selector) is None,
            },
    {
        let mut i: usize = 0;
        while i < self.wallpapers.len()
            invariant
                i <= self.wallpapers.len(),
                first_shown(self@.wallpapers, selector, i as int) is None,
            decreases self.wallpapers.len() - i,
        {
            match self.wallpapers[i].find_layer(selector) {
                Some(j) => {
                    proof {
                        lemma_first_shown_stays(
                            self@.wallpapers,
                            selector,
                            i as int + 1,
                            self@.wallpapers.len() as int,
                        );
                    }
                    return Some((i, j));
                },
                None => {},
            }
            i = i + 1;
        }
        None
    }

    /// Puts `layer` at place `(i, j)`.
    pub fn set_layer(&mut self, i: usize, j: usize, layer: CosmicBgLayer)
        requires
            i < old(self).wallpapers@.len(),
            j < old(self).wallpapers@[i as int].layers@.len(),
        ensures
            final(self)@ == old(self)@.with_layer(i as int, j as int, layer),
    {
        self.wallpapers[i].layers[j] = layer;
        assert(self@.wallpapers =~= old(self)@.with_layer(i as int, j as int, layer).wallpapers);
    }

    /// Executable form of [`CosmicBgView::refreshed`].
    pub fn refresh_layer(&mut self, i: usize, j: usize, layer: CosmicBgLayer) -> (actions: Vec<
        Action,
    >)
        requires
            i < old(self).wallpapers@.len(),
            j < old(self).wallpapers@[i as int].layers@.len(),
        ensures
            (final(self)@, actions@) == old(self)@.refreshed(i as int, j as int, layer),
    {
        if self.wallpapers[i].is_shader() {
            if self.gpu_renderer {
                let (resized, actions) = resize_layer(layer);
                self.set_layer(i, j, resized);
                actions
            } else {
                self.set_layer(i, j, layer);
                Vec::new()
            }
        } else {
            self.set_layer(i, j, layer);
            let mut actions: Vec<Action> = Vec::new();
            actions.push(Action::Draw { wallpaper: i });
            assert(actions@ =~= seq![Action::Draw { wallpaper: i }]);
            actions
        }
    }

    /// Handles a change of the integer scale of a layer's surface: see
    /// [`CosmicBgView::scale_factor_changed`].
    pub fn scale_factor_changed(&mut self, layer: u64, factor: u32) -> (actions: Vec<Action>)
        ensures
            (final(self)@, actions@) == old(self)@.scale_factor_changed(layer, factor),
    {
        if self.fractional_scale_manager {
            return Vec::new();
        }
        match self.find_layer(LayerSelector::Id(layer)) {
            Some((i, j)) => {
                let mut changed = self.wallpapers[i].layers[j];
                changed.fractional_scale = Some(scale_from_factor(factor));
                self.refresh_layer(i, j, changed)
            },
            None => Vec::new(),
        }
    }

    /// Handles the fractional scale that the compositor prefers for a
    /// layer's surface: see [`CosmicBgView::preferred_scale`].
    pub fn preferred_scale(&mut self, layer: u64, scale: u32) -> (actions: Vec<Action>)
        ensures
            (final(self)@, actions@) == old(self)@.preferred_scale(layer, scale),
    {
        match self.find_layer(LayerSelector::Id(layer)) {
            Some((i, j)) => {
                let mut changed = self.wallpapers[i].layers[j];
                changed.fractional_scale = Some(scale);
                self.refresh_layer(i, j, changed)
            },
            None => Vec::new(),
        }
    }

    /// Handles the logical size that the compositor gave a layer's surface:
    /// see [`CosmicBgView::configure`].
    pub fn configure(&mut self, layer: u64, width: u32, height: u32) -> (actions: Vec<Action>)
        ensures
            (final(self)@, actions@) == old(self)@.configure(layer, width, height),
    {
        let (i, j) = match self.find_layer(LayerSelector::Id(layer)) {
            Some(place) => place,
            None => {
                return Vec::new();
            },
        };
        let mut sized = self.wallpapers[i].layers[j];
        sized.size = Some((width, height));
        sized.needs_redraw = true;
        let mut actions: Vec<Action> = Vec::new();
        if self.wallpapers[i].is_shader() {
            if sized.gpu_state.is_none() {
                if !self.gpu_renderer {
                    actions.push(Action::InitRenderer);
                }
                actions.push(Action::BuildCanvas { layer, wallpaper: i });
                self.set_layer(i, j, sized);
                self.gpu_renderer = true;
                assert(actions@ =~= old(self)@.configure(layer, width, height).1);
                actions
            } else if self.gpu_renderer {
                let (resized, actions) = resize_layer(sized);
                self.set_layer(i, j, resized);
                actions
            } else {
                self.set_layer(i, j, sized);
                actions
            }
        } else {
            self.set_layer(i, j, sized);
            match pool_size(width, height) {
                Some(bytes) => {
                    actions.push(Action::EnsurePool { layer, bytes });
                    assert(actions@ =~= seq![Action::EnsurePool { layer, bytes }]);
                },
                None => {},
            }
            actions
        }
    }

    /// Handles the outcome of asking for a layer's pool: see
    /// [`CosmicBgView::pool_ready`].
    pub fn pool_ready(&mut self, layer: u64, bytes: usize, ok: bool) -> (actions: Vec<Action>)
        ensures
            (final(self)@, actions@) == old(self)@.pool_ready(layer, bytes, ok),
    {
        let mut actions: Vec<Action> = Vec::new();
        match self.find_layer(LayerSelector::Id(layer)) {
            Some((i, j)) => {
                if ok && !self.wallpapers[i].is_shader() {
                    let mut pooled = self.wallpapers[i].layers[j];
                    pooled.pool = Some(bytes);
                    self.set_layer(i, j, pooled);
                    actions.push(Action::Draw { wallpaper: i });
                    assert(actions@ =~= seq![Action::Draw { wallpaper: i }]);
                }
            },
            None => {},
        }
        actions
    }

    /// Takes note that a still wallpaper was drawn: see
    /// [`CosmicBgView::drawn`].
    pub fn drawn(&mut self, wallpaper: usize)
        ensures
            final(self)@ == old(self)@.drawn(wallpaper),
    {
        if wallpaper < self.wallpapers.len() {
            self.wallpapers[wallpaper].mark_drawn();
            assert(self@.wallpapers =~= old(self)@.drawn(wallpaper).wallpapers);
        }
    }

    /// Handles the outcome of asking for a layer's canvas: see
    /// [`CosmicBgView::canvas_built`].
    pub fn canvas_built(&mut self, layer: u64, canvas: Option<FragmentCanvas>, now: u64) -> (actions:
        Vec<Action>)
        ensures
            (final(self)@, actions@) == old(self)@.canvas_built(layer, canvas, now),
    {
        let mut actions: Vec<Action> = Vec::new();
        let (i, j) = match self.find_layer(LayerSelector::Id(layer)) {
            Some(place) => place,
            None => {
                return actions;
            },
        };
        let mut made = match canvas {
            Some(made) => made,
            None => {
                return actions;
            },
        };
        if !(self.wallpapers[i].is_shader() && self.gpu_renderer
            && self.wallpapers[i].layers[j].size.is_some()) {
            return actions;
        }
        let mut attached = self.wallpapers[i].layers[j];
        let (width, height) = attached.physical_size();
        made.update_resolution(width, height);
        attached.pool = None;
        attached.gpu_state = Some(
            GpuLayerState { surface_width: width, surface_height: height, canvas: made },
        );
        self.set_layer(i, j, attached);
        actions.push(Action::CreateSurface { layer, width, height });
        actions.push(Action::UpdateResolution { layer, width, height });
        actions.push(
            Action::RenderFrame { layer, width, height, pass: made.render(now), first: true },
        );
        assert(actions@ =~= old(self)@.canvas_built(layer, canvas, now).1);
        actions
    }

    /// Handles a frame callback of a layer: see [`CosmicBgView::frame`].
    pub fn frame(&mut self, layer: u64, now: u64) -> (actions: Vec<Action>)
        ensures
            (final(self)@, actions@) == old(self)@.frame(layer, now),
    {
        let mut actions: Vec<Action> = Vec::new();
        let should_pause = self.should_pause_animation();
        let frame_rate = self.effective_frame_rate();
        let (i, j) = match self.find_layer(LayerSelector::Id(layer)) {
            Some(place) => place,
            None => {
                return actions;
            },
        };
        let mut shown = self.wallpapers[i].layers[j];
        let mut gpu = match shown.gpu_state {
            Some(gpu) => gpu,
            None => {
                return actions;
            },
        };
        gpu.canvas.set_frame_rate_override(frame_rate);
        shown.gpu_state = Some(gpu);
        if !should_pause && gpu.canvas.should_render(now) && self.gpu_renderer {
            actions.push(
                Action::RenderFrame {
                    layer,
                    width: gpu.surface_width,
                    height: gpu.surface_height,
                    pass: gpu.canvas.render(now),
                    first: false,
                },
            );
            assert(actions@ =~= old(self)@.frame(layer, now).1);
        } else {
            actions.push(Action::RequestFrame { layer });
            actions.push(Action::Commit { layer });
            assert(actions@ =~= rearm_actions(layer));
        }
        self.set_layer(i, j, shown);
        actions
    }

    /// Whether power saving pauses animations now: see [`pauses`].
    pub fn should_pause_animation(&self) -> (r: bool)
        ensures
            r == pauses(self@.power, self@.config.power_saving),
    {
        should_pause_animation(&self.power, &self.config.power_saving)
    }

    /// The frame rate that power saving imposes now, if it imposes one: see
    /// [`imposed_frame_rate`].
    pub fn effective_frame_rate(&self) -> (r: Option<u8>)
        ensures
            r == imposed_frame_rate(self@.power, self@.config.power_saving),
    {
        effective_frame_rate(&self.power, &self.config.power_saving)
    }

    /// The size in physical pixels of a shader's surface: see
    /// [`physical_size`].
    pub fn shader_physical_size(
        layer_size: Option<(u32, u32)>,
        fractional_scale: Option<u32>,
        output_mode_dims: Option<(u32, u32)>,
    ) -> (r: (u32, u32))
        ensures
            r == physical_size(layer_size, fractional_scale, output_mode_dims),
    {
        shader_physical_size(layer_size, fractional_scale, output_mode_dims)
    }

    /// The size in physical pixels of the surface of `layer`.
    pub fn shader_layer_physical_size(layer: &CosmicBgLayer) -> (r: (u32, u32))
        ensures
            r == layer.spec_physical_size(),
    {
        layer.physical_size()
    }

    /// Handles the outcome of a frame that was asked for: see
    /// [`CosmicBgView::frame_result`].
    pub fn frame_result(&mut self, layer: u64, first: bool, outcome: SurfaceOutcome, now: u64) -> (actions:
        Vec<Action>)
        ensures
            (final(self)@, actions@) == old(self)@.frame_result(layer, first, outcome, now),
    {
        let mut actions: Vec<Action> = Vec::new();
        let (i, j) = match self.find_layer(LayerSelector::Id(layer)) {
            Some(place) => place,
            None => {
                return actions;
            },
        };
        let mut shown = self.wallpapers[i].layers[j];
        let mut gpu = match shown.gpu_state {
            Some(gpu) => gpu,
            None => {
                return actions;
            },
        };
        let stale = match outcome {
            SurfaceOutcome::Lost => true,
            SurfaceOutcome::Outdated => true,
            _ => false,
        };
        let presented = match outcome {
            SurfaceOutcome::Presented => true,
            _ => false,
        };
        let recover = !first && stale;
        if presented {
            gpu.canvas.mark_frame_rendered(now);
        } else if recover {
            gpu.canvas.update_resolution(gpu.surface_width, gpu.surface_height);
        }
        if recover {
            actions.push(
                Action::ConfigureSurface {
                    layer,
                    width: gpu.surface_width,
                    height: gpu.surface_height,
                },
            );
            actions.push(
                Action::UpdateResolution {
                    layer,
                    width: gpu.surface_width,
                    height: gpu.surface_height,
                },
            );
        }
        if first {
            match shown.size {
                Some((width, height)) => {
                    actions.push(Action::SetViewportDestination { layer: shown.id, width, height });
                },
                None => {},
            }
        }
        actions.push(Action::RequestFrame { layer });
        actions.push(Action::Commit { layer });
        shown.gpu_state = Some(gpu);
        self.set_layer(i, j, shown);
        assert(actions@ =~= old(self)@.frame_result(layer, first, outcome, now).1);
        actions
    }
}

/// Executable form of [`pool_bytes`].
pub fn pool_size(width: u32, height: u32) -> (r: Option<usize>)
    ensures
        r == pool_bytes(width, height),
{
    assert(width * height * 4 <= 0xffff_ffff * 0xffff_ffff * 4) by (nonlinear_arith)
        requires
            0 <= width <= 0xffff_ffff,
            0 <= height <= 0xffff_ffff,
    ;
    let bytes: u128 = (width as u128) * (height as u128) * 4;
    if bytes <= usize::MAX as u128 {
        Some(bytes as usize)
    } else {
        None
    }
}

/// A layer after its size or scale changed, resized, with what is asked for:
/// see [`CosmicBgLayer::resized`] and [`resize_actions`].
pub fn resize_layer(layer: CosmicBgLayer) -> (r: (CosmicBgLayer, Vec<Action>))
    ensures
        r.0 == layer.resized(),
        r.1@ == resize_actions(layer),
{
    let mut actions: Vec<Action> = Vec::new();
    let mut resized = layer;
    match layer.gpu_state {
        Some(gpu) => {
            let (width, height) = layer.physical_size();
            let mut canvas = gpu.canvas;
            canvas.update_resolution(width, height);
            resized.gpu_state = Some(
                GpuLayerState { surface_width: width, surface_height: height, canvas },
            );
            actions.push(Action::ConfigureSurface { layer: layer.id, width, height });
            actions.push(Action::UpdateResolution { layer: layer.id, width, height });
            match layer.size {
                Some((logical_width, logical_height)) => {
                    actions.push(
                        Action::SetViewportDestination {
                            layer: layer.id,
                            width: logical_width,
                            height: logical_height,
                        },
                    );
                },
                None => {},
            }
            actions.push(Action::RequestFrame { layer: layer.id });
            actions.push(Action::Commit { layer: layer.id });
            assert(actions@ =~= resize_actions(layer));
        },
        None => {},
    }
    (resized, actions)
}

} // verus!
