//! Events, and the loop that takes them in.

use vstd::prelude::*;

use crate::context::{Context, ContextView};
use crate::engine::outputs::clone_info;
use crate::engine::reload::{keys_view, WatchKind};
use crate::engine::{
    Action, BackgroundEngine, CosmicBg, CosmicBgView, EngineConfig, OutputInfo, OutputInfoView,
    SurfaceOutcome,
};
use crate::fragment_canvas::FragmentCanvas;
use crate::upower::PowerState;
use crate::wallpaper::paths_view;

verus! {

/// Something that happened outside the engine.
#[derive(Debug)]
pub enum Event {
    /// The compositor announced an output.
    NewOutput { output: u64, info: OutputInfo },
    /// Something about an output changed.
    UpdateOutput { output: u64, info: OutputInfo },
    /// The compositor took an output back.
    OutputDestroyed { output: u64 },
    /// The compositor gave a layer's surface its logical size.
    Configure { layer: u64, width: u32, height: u32 },
    /// A pool that was asked for is there, or could not be had.
    PoolReady { layer: u64, bytes: usize, ok: bool },
    /// A still wallpaper that was to be drawn was drawn.
    Drawn { wallpaper: usize },
    /// A canvas that was asked for was made at `now`, or could not be.
    CanvasBuilt { layer: u64, canvas: Option<FragmentCanvas>, now: u64 },
    /// A layer's surface can be drawn again.
    Frame { layer: u64, now: u64 },
    /// A frame that was asked for was presented at `now`, or failed.
    FrameResult { layer: u64, first: bool, outcome: SurfaceOutcome, now: u64 },
    /// The integer scale of a layer's surface changed.
    ScaleFactorChanged { layer: u64, factor: u32 },
    /// The compositor prefers a fractional scale, in 120ths, for a layer's
    /// surface.
    PreferredScale { layer: u64, scale: u32 },
    /// The compositor closed a layer's surface.
    Closed { layer: u64 },
    /// The configuration store changed under some keys; with the store as it
    /// is now.
    ConfigChanged { keys: Vec<String>, store: Context },
    /// Paths in a watched directory changed.
    SourceChanged { source: String, kind: WatchKind, paths: Vec<String> },
    /// The power state changed; `None` once the power service is lost.
    PowerChanged { power: Option<PowerState> },
    /// The engine is asked to end.
    Stop,
}

pub enum EventView {
    NewOutput { output: u64, info: OutputInfoView },
    UpdateOutput { output: u64, info: OutputInfoView },
    OutputDestroyed { output: u64 },
    Configure { layer: u64, width: u32, height: u32 },
    PoolReady { layer: u64, bytes: usize, ok: bool },
    Drawn { wallpaper: usize },
    CanvasBuilt { layer: u64, canvas: Option<FragmentCanvas>, now: u64 },
    Frame { layer: u64, now: u64 },
    FrameResult { layer: u64, first: bool, outcome: SurfaceOutcome, now: u64 },
    ScaleFactorChanged { layer: u64, factor: u32 },
    PreferredScale { layer: u64, scale: u32 },
    Closed { layer: u64 },
    ConfigChanged { keys: Seq<Seq<char>>, store: ContextView },
    SourceChanged { source: Seq<char>, kind: WatchKind, paths: Seq<Seq<char>> },
    PowerChanged { power: Option<PowerState> },
    Stop,
}

impl View for Event {
    type V = EventView;

    open spec fn view(&self) -> EventView {
        match self {
            Event::NewOutput { output, info } => EventView::NewOutput {
                output: *output,
                info: info@,
            },
            Event::UpdateOutput { output, info } => EventView::UpdateOutput {
                output: *output,
                info: info@,
            },
            Event::OutputDestroyed { output } => EventView::OutputDestroyed { output: *output },
            Event::Configure { layer, width, height } => EventView::Configure {
                layer: *layer,
                width: *width,
                height: *height,
            },
            Event::PoolReady { layer, bytes, ok } => EventView::PoolReady {
                layer: *layer,
                bytes: *bytes,
                ok: *ok,
            },
            Event::Drawn { wallpaper } => EventView::Drawn { wallpaper: *wallpaper },
            Event::CanvasBuilt { layer, canvas, now } => EventView::CanvasBuilt {
                layer: *layer,
                canvas: *canvas,
                now: *now,
            },
            Event::Frame { layer, now } => EventView::Frame { layer: *layer, now: *now },
            Event::FrameResult { layer, first, outcome, now } => EventView::FrameResult {
                layer: *layer,
                first: *first,
                outcome: *outcome,
                now: *now,
            },
            Event::ScaleFactorChanged { layer, factor } => EventView::ScaleFactorChanged {
                layer: *layer,
                factor: *factor,
            },
            Event::PreferredScale { layer, scale } => EventView::PreferredScale {
                layer: *layer,
                scale: *scale,
            },
            Event::Closed { layer } => EventView::Closed { layer: *layer },
            Event::ConfigChanged { keys, store } => EventView::ConfigChanged {
                keys: keys_view(keys@),
                store: store@,
            },
            Event::SourceChanged { source, kind, paths } => EventView::SourceChanged {
                source: source@,
                kind: *kind,
                paths: paths_view(paths@),
            },
            Event::PowerChanged { power } => EventView::PowerChanged { power: *power },
            Event::Stop => EventView::Stop,
        }
    }
}

/// The views of a list of events, in order.
pub open spec fn event_views(events: Seq<Event>) -> Seq<EventView> {
    events.map_values(|e: Event| e@)
}

impl CosmicBgView {
    /// The state after an event, and what is asked for.
    pub open spec fn step(self, event: EventView) -> (CosmicBgView, Seq<Action>) {
        match event {
            EventView::NewOutput { output, info } => self.new_output(output, info),
            EventView::UpdateOutput { output, info } => self.update_output(output, info),
            EventView::OutputDestroyed { output } => self.output_destroyed(output),
            EventView::Configure { layer, width, height } => self.configure(layer, width, height),
            EventView::PoolReady { layer, bytes, ok } => self.pool_ready(layer, bytes, ok),
            EventView::Drawn { wallpaper } => (self.drawn(wallpaper), Seq::empty()),
            EventView::CanvasBuilt { layer, canvas, now } => self.canvas_built(layer, canvas, now),
            EventView::Frame { layer, now } => self.frame(layer, now),
            EventView::FrameResult { layer, first, outcome, now } => self.frame_result(
                layer,
                first,
                outcome,
                now,
            ),
            EventView::ScaleFactorChanged { layer, factor } => self.scale_factor_changed(
                layer,
                factor,
            ),
            EventView::PreferredScale { layer, scale } => self.preferred_scale(layer, scale),
            EventView::Closed { layer } => self.closed(layer),
            EventView::ConfigChanged { keys, store } => self.config_changed(keys, store),
            EventView::SourceChanged { source, kind, paths } => (
                self.source_changed(source, kind, paths),
                Seq::empty(),
            ),
            EventView::PowerChanged { power } => (
                CosmicBgView { power, ..self },
                Seq::empty(),
            ),
            EventView::Stop => (CosmicBgView { exit: true, ..self }, Seq::empty()),
        }
    }

    /// The state after a run of events, and all that is asked for on the
    /// way: each event is taken in turn, until one asks the loop to end.
    pub open spec fn run(self, events: Seq<EventView>) -> (CosmicBgView, Seq<Action>)
        decreases events.len(),
    {
        if events.len() == 0 {
            (self, Seq::empty())
        } else {
            let (state, actions) = self.run(events.drop_last());
            if state.exit {
                (state, actions)
            } else {
                let (next, more) = state.step(events.last());
                (next, actions + more)
            }
        }
    }
}

impl CosmicBg {
    /// Takes in one event: see [`CosmicBgView::step`].
    pub fn step(&mut self, event: &Event) -> (actions: Vec<Action>)
        ensures
            (final(self)@, actions@) == old(self)@.step(event@),
    {
        match event {
            Event::NewOutput { output, info } => self.new_output(*output, clone_info(info)),
            Event::UpdateOutput { output, info } => self.update_output(*output, clone_info(info)),
            Event::OutputDestroyed { output } => self.output_destroyed(*output),
            Event::Configure { layer, width, height } => self.configure(*layer, *width, *height),
            Event::PoolReady { layer, bytes, ok } => self.pool_ready(*layer, *bytes, *ok),
            Event::Drawn { wallpaper } => {
                self.drawn(*wallpaper);
                Vec::new()
            },
            Event::CanvasBuilt { layer, canvas, now } => self.canvas_built(*layer, *canvas, *now),
            Event::Frame { layer, now } => self.frame(*layer, *now),
            Event::FrameResult { layer, first, outcome, now } => self.frame_result(
                *layer,
                *first,
                *outcome,
                *now,
            ),
            Event::ScaleFactorChanged { layer, factor } => self.scale_factor_changed(
                *layer,
                *factor,
            ),
            Event::PreferredScale { layer, scale } => self.preferred_scale(*layer, *scale),
            Event::Closed { layer } => self.closed(*layer),
            Event::ConfigChanged { keys, store } => self.config_changed(keys, store),
            Event::SourceChanged { source, kind, paths } => {
                self.source_changed(source.as_str(), *kind, paths);
                Vec::new()
            },
            Event::PowerChanged { power } => {
                self.power_changed(*power);
                Vec::new()
            },
            Event::Stop => {
                self.stop();
                Vec::new()
            },
        }
    }
}

impl BackgroundEngine {
    /// Runs the engine over `events`: each is taken in turn, until one asks
    /// the loop to end. Returns all that is asked for, in order.
    ///
    /// An engine that is not to bind to a compositor takes nothing in and
    /// asks for nothing.
    pub fn run(config: EngineConfig, state: &mut CosmicBg, events: &Vec<Event>) -> (actions: Vec<
        Action,
    >)
        ensures
            config.enable_wayland ==> (final(state)@, actions@) == old(state)@.run(
                event_views(events@),
            ),
            !config.enable_wayland ==> final(state)@ == old(state)@ && actions@
                == Seq::<Action>::empty(),
    {
        let mut actions: Vec<Action> = Vec::new();
        if !config.enable_wayland {
            return actions;
        }
        let ghost before = state@;
        let ghost all = event_views(events@);
        let mut i: usize = 0;
        assert(all.take(0) =~= Seq::empty());
        while i < events.len()
            invariant
                i <= events.len(),
                all == event_views(events@),
                (state@, actions@) == before.run(all.take(i as int)),
            decreases events.len() - i,
        {
            proof {
                assert(all.take(i + 1).drop_last() =~= all.take(i as int));
                assert(all.take(i + 1).last() == events@[i as int]@);
            }
            if !state.exit {
                let mut more = state.step(&events[i]);
                actions.append(&mut more);
            }
            i = i + 1;
        }
        assert(all.take(i as int) =~= all);
        actions
    }
}

} // verus!
