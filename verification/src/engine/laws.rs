//! What holds of the engine whatever happens.

use vstd::prelude::*;

use crate::config::{lemma_position_of, position_of, selects, ConfigView, ALL_OUTPUTS};
use crate::context::ContextView;
use crate::engine::binding::{
    bound_count, lemma_bound_push, lemma_bound_same_outputs, lemma_bound_stripped,
    lemma_bound_update, lemma_bound_zero, lemma_count_push, lemma_occurrences_by_handles,
    lemma_occurrences_push, lemma_occurrences_without, lemma_occurs, occurrences, same_outputs,
    shown_count,
};
use crate::engine::outputs::{
    first_free, lemma_first_free, lemma_output_position, other_than,
};
use crate::engine::reload::{keys_applied, name_or_empty, watched, Rebuilt, WatchKind};
use crate::engine::run::EventView;
use crate::engine::{
    lemma_first_shown, Action, ActiveOutputView, CosmicBgView, OutputInfoView, SurfaceOutcome,
};
use crate::layer::{whole_scale, CosmicBgLayer};
use crate::upower::PowerState;
use crate::wallpaper::{passed, LayerSelector, WallpaperView};

verus! {

impl CosmicBgView {
    /// The wallpaper for all outputs is there, as the last one, and the
    /// default entry of the configuration is for all outputs.
    pub open spec fn wf(self) -> bool {
        &&& self.wallpapers.len() > 0
        &&& self.wallpapers.last().entry.output == ALL_OUTPUTS@
        &&& self.config.default_background.output == ALL_OUTPUTS@
    }

    /// No output is active twice, and each output has as many layers as it
    /// is active: one if it is, none if it is not.
    pub open spec fn outputs_bound(self) -> bool {
        forall|output: u64|
            (#[trigger] self.layers_on(output)) == occurrences(self.active_outputs, output)
                && occurrences(self.active_outputs, output) <= 1
    }

    /// Whether there are handles left for the layers that `event` may ask
    /// for.
    pub open spec fn handles_left(self, event: EventView) -> bool {
        match event {
            EventView::NewOutput { .. } => self.next_layer < u64::MAX,
            EventView::ConfigChanged { .. } => self.next_layer + self.active_outputs.len()
                <= u64::MAX,
            _ => true,
        }
    }
}

/// A state whose layers are on the same outputs as those of a state in
/// which every output is bound once, with the same outputs active, has every
/// output bound once too.
proof fn lemma_same_outputs_keeps(state: CosmicBgView, next: CosmicBgView)
    requires
        state.wf(),
        state.outputs_bound(),
        same_outputs(state.wallpapers, next.wallpapers),
        next.wallpapers.last().entry.output == ALL_OUTPUTS@,
        next.config.default_background.output == ALL_OUTPUTS@,
        forall|output: u64|
            occurrences(next.active_outputs, output) == #[trigger] occurrences(
                state.active_outputs,
                output,
            ),
    ensures
        next.wf(),
        next.outputs_bound(),
{
    assert forall|output: u64|
        (#[trigger] next.layers_on(output)) == occurrences(next.active_outputs, output)
            && occurrences(next.active_outputs, output) <= 1 by {
        lemma_bound_same_outputs(state.wallpapers, next.wallpapers, output);
        assert(state.layers_on(output) == occurrences(state.active_outputs, output));
    }
}

/// Replacing a layer by one on the same output leaves every layer on its
/// output, and every wallpaper with its entry.
proof fn lemma_layer_replaced(state: CosmicBgView, i: int, j: int, layer: CosmicBgLayer)
    requires
        0 <= i < state.wallpapers.len(),
        0 <= j < state.wallpapers[i].layers.len(),
        layer.output == state.wallpapers[i].layers[j].output,
    ensures
        same_outputs(state.wallpapers, state.with_layer(i, j, layer).wallpapers),
        state.with_layer(i, j, layer).wallpapers.last().entry == state.wallpapers.last().entry,
{
    let next = state.with_layer(i, j, layer).wallpapers;
    assert forall|k: int| 0 <= k < state.wallpapers.len() implies (
    #[trigger] state.wallpapers[k]).layers.len() == next[k].layers.len() by {}
    assert forall|k: int, l: int|
        0 <= k < state.wallpapers.len() && 0 <= l < state.wallpapers[k].layers.len() implies (
        #[trigger] state.wallpapers[k].layers[l]).output == next[k].layers[l].output by {}
}

/// A change of a layer's size or scale that keeps its output leaves every
/// layer on its output.
proof fn lemma_refreshed(state: CosmicBgView, i: int, j: int, layer: CosmicBgLayer)
    requires
        0 <= i < state.wallpapers.len(),
        0 <= j < state.wallpapers[i].layers.len(),
        layer.output == state.wallpapers[i].layers[j].output,
    ensures
        same_outputs(state.wallpapers, state.refreshed(i, j, layer).0.wallpapers),
        state.refreshed(i, j, layer).0.wallpapers.last().entry == state.wallpapers.last().entry,
        state.refreshed(i, j, layer).0.config == state.config,
        state.refreshed(i, j, layer).0.active_outputs == state.active_outputs,
{
    lemma_layer_replaced(state, i, j, layer);
    lemma_layer_replaced(state, i, j, layer.resized());
}

/// The events that change layers where they are leave every output bound
/// once.
proof fn lemma_layer_events_keep(state: CosmicBgView, event: EventView)
    requires
        state.wf(),
        state.outputs_bound(),
        event is Configure || event is PoolReady || event is CanvasBuilt || event is Frame
            || event is FrameResult || event is ScaleFactorChanged || event is PreferredScale,
    ensures
        state.step(event).0.wf(),
        state.step(event).0.outputs_bound(),
{
    let next = state.step(event).0;
    let layer = match event {
        EventView::Configure { layer, .. } => layer,
        EventView::PoolReady { layer, .. } => layer,
        EventView::CanvasBuilt { layer, .. } => layer,
        EventView::Frame { layer, .. } => layer,
        EventView::FrameResult { layer, .. } => layer,
        EventView::ScaleFactorChanged { layer, .. } => layer,
        EventView::PreferredScale { layer, .. } => layer,
        _ => 0,
    };
    lemma_first_shown(state.wallpapers, LayerSelector::Id(layer), state.wallpapers.len() as int);
    match state.find_layer(LayerSelector::Id(layer)) {
        Some((i, j)) => {
            let old = state.wallpapers[i].layers[j];
            match event {
                EventView::Configure { width, height, .. } => {
                    let sized = CosmicBgLayer {
                        size: Some((width, height)),
                        needs_redraw: true,
                        ..old
                    };
                    lemma_layer_replaced(state, i, j, sized);
                    lemma_layer_replaced(state, i, j, sized.resized());
                },
                EventView::PoolReady { bytes, .. } => {
                    lemma_layer_replaced(state, i, j, CosmicBgLayer { pool: Some(bytes), ..old });
                },
                EventView::CanvasBuilt { .. } => {
                    let attached = next.wallpapers[i].layers[j];
                    if next != state {
                        lemma_layer_replaced(state, i, j, attached);
                    }
                },
                EventView::Frame { .. } => {
                    let shown = next.wallpapers[i].layers[j];
                    if next != state {
                        lemma_layer_replaced(state, i, j, shown);
                    }
                },
                EventView::FrameResult { .. } => {
                    let shown = next.wallpapers[i].layers[j];
                    if next != state {
                        lemma_layer_replaced(state, i, j, shown);
                    }
                },
                EventView::ScaleFactorChanged { factor, .. } => {
                    lemma_refreshed(
                        state,
                        i,
                        j,
                        CosmicBgLayer {
                            fractional_scale: Some(whole_scale(factor)),
                            ..old
                        },
                    );
                },
                EventView::PreferredScale { scale, .. } => {
                    lemma_refreshed(
                        state,
                        i,
                        j,
                        CosmicBgLayer { fractional_scale: Some(scale), ..old },
                    );
                },
                _ => {},
            }
        },
        None => {},
    }
    lemma_same_outputs_reflexive(state);
    lemma_same_outputs_keeps(state, next);
}

/// Every layer of a state is on its own output.
proof fn lemma_same_outputs_reflexive(state: CosmicBgView)
    ensures
        same_outputs(state.wallpapers, state.wallpapers),
{
}

/// A new output that was not active gets exactly one layer.
proof fn lemma_new_output_keeps(state: CosmicBgView, output: u64, info: OutputInfoView)
    requires
        state.wf(),
        state.outputs_bound(),
        !state.is_active(output),
        state.next_layer < u64::MAX,
    ensures
        state.new_output(output, info).0.wf(),
        state.new_output(output, info).0.outputs_bound(),
{
    let next = state.new_output(output, info).0;
    let count = state.wallpapers.len() as int;
    assert(state.layers_on(output) == occurrences(state.active_outputs, output));
    lemma_bound_zero(state.wallpapers, output, count);
    lemma_first_free(state.wallpapers, info.name, output, count);
    assert(selects(state.wallpapers[count - 1].entry.output, info.name));
    assert(!state.wallpapers[count - 1].shown_on(output));
    let i = first_free(state.wallpapers, info.name, output, count)->Some_0;
    let layer = state.new_layer(state.next_layer, output, info);
    let wallpaper = WallpaperView {
        layers: state.wallpapers[i].layers.push(layer),
        ..state.wallpapers[i]
    };
    assert(next.wallpapers == state.wallpapers.update(i, wallpaper));
    assert forall|other: u64|
        (#[trigger] next.layers_on(other)) == occurrences(next.active_outputs, other)
            && occurrences(next.active_outputs, other) <= 1 by {
        lemma_bound_update(state.wallpapers, i, wallpaper, other, count);
        lemma_count_push(state.wallpapers[i].layers, layer, other);
        lemma_occurrences_push(
            state.active_outputs,
            ActiveOutputView { id: output, info },
            other,
        );
        assert(state.layers_on(other) == occurrences(state.active_outputs, other));
    }
}

/// Once an output went away no layer is on it, and every other output is
/// bound as before.
proof fn lemma_output_destroyed_keeps(state: CosmicBgView, output: u64)
    requires
        state.wf(),
        state.outputs_bound(),
    ensures
        state.output_destroyed(output).0.wf(),
        state.output_destroyed(output).0.outputs_bound(),
        state.output_destroyed(output).0.layers_on(output) == 0,
        !state.output_destroyed(output).0.is_active(output),
{
    let next = state.output_destroyed(output).0;
    let count = state.wallpapers.len() as int;
    lemma_occurs(state.active_outputs, output);
    assert(state.layers_on(output) == occurrences(state.active_outputs, output));
    assert forall|other: u64|
        (#[trigger] next.layers_on(other)) == occurrences(next.active_outputs, other)
            && occurrences(next.active_outputs, other) <= 1 by {
        lemma_occurrences_without(state.active_outputs, output, other);
        lemma_bound_stripped(state.wallpapers, output, other, count);
        assert(state.layers_on(other) == occurrences(state.active_outputs, other));
    }
    lemma_occurrences_without(state.active_outputs, output, output);
    lemma_bound_stripped(state.wallpapers, output, output, count);
}

/// A change of an output leaves every output bound once.
proof fn lemma_update_output_keeps(state: CosmicBgView, output: u64, info: OutputInfoView)
    requires
        state.wf(),
        state.outputs_bound(),
    ensures
        state.update_output(output, info).0.wf(),
        state.update_output(output, info).0.outputs_bound(),
{
    let informed = state.informed(output, info);
    let next = state.update_output(output, info).0;
    lemma_output_position(state.active_outputs, output, state.active_outputs.len() as int);
    assert forall|other: u64|
        occurrences(informed.active_outputs, other) == #[trigger] occurrences(
            state.active_outputs,
            other,
        ) by {
        lemma_occurrences_by_handles(informed.active_outputs, state.active_outputs, other);
    }
    lemma_first_shown(
        informed.wallpapers,
        LayerSelector::Output(output),
        informed.wallpapers.len() as int,
    );
    match informed.find_layer(LayerSelector::Output(output)) {
        Some((i, j)) => {
            lemma_refreshed(
                informed,
                i,
                j,
                CosmicBgLayer {
                    scale_factor: info.scale_factor,
                    mode: info.mode,
                    fractional_scale: Some(whole_scale(info.scale_factor)),
                    ..informed.wallpapers[i].layers[j]
                },
            );
        },
        None => {},
    }
    lemma_same_outputs_keeps(state, next);
}

/// A change in a watched directory leaves every output bound once.
proof fn lemma_source_changed_keeps(
    state: CosmicBgView,
    source: Seq<char>,
    kind: WatchKind,
    paths: Seq<Seq<char>>,
)
    requires
        state.wf(),
        state.outputs_bound(),
    ensures
        state.source_changed(source, kind, paths).wf(),
        state.source_changed(source, kind, paths).outputs_bound(),
{
    let next = state.source_changed(source, kind, paths);
    assert(next.wallpapers.last().entry == state.wallpapers.last().entry);
    lemma_same_outputs_keeps(state, next);
}

/// Whatever changes in the store, the default entry stays the one for all
/// outputs.
proof fn lemma_keys_keep_default(config: ConfigView, keys: Seq<Seq<char>>, store: ContextView)
    requires
        config.default_background.output == ALL_OUTPUTS@,
    ensures
        keys_applied(config, keys, store).0.default_background.output == ALL_OUTPUTS@,
    decreases keys.len(),
{
    if keys.len() > 0 {
        lemma_keys_keep_default(config, keys.drop_last(), store);
    }
}

/// What the wallpapers made anew for the first `limit` outputs hold: for
/// each output as many layers as it is among those outputs.
proof fn lemma_rebuilt_counts(state: CosmicBgView, limit: int, output: u64)
    requires
        0 <= limit <= state.active_outputs.len(),
        state.next_layer + limit <= u64::MAX,
    ensures
        bound_count(
            state.rebuilt(limit).named,
            output,
            state.rebuilt(limit).named.len() as int,
        ) + shown_count(state.rebuilt(limit).shared, output) == occurrences(
            state.active_outputs.take(limit),
            output,
        ),
        state.next_layer <= state.rebuilt(limit).next_layer <= state.next_layer + limit,
    decreases limit,
{
    if limit <= 0 {
        assert(state.active_outputs.take(0) =~= Seq::empty());
        lemma_occurrences_push(Seq::empty(), arbitrary(), output);
        lemma_count_push(Seq::empty(), arbitrary(), output);
    } else {
        lemma_rebuilt_counts(state, limit - 1, output);
        let earlier = state.rebuilt(limit - 1);
        let made = state.rebuilt(limit);
        let added = state.active_outputs[limit - 1];
        assert(state.active_outputs.take(limit) =~= state.active_outputs.take(limit - 1).push(
            added,
        ));
        lemma_occurrences_push(state.active_outputs.take(limit - 1), added, output);
        lemma_first_shown(
            state.wallpapers,
            LayerSelector::Output(added.id),
            state.wallpapers.len() as int,
        );
        let layer = if made.named.len() > earlier.named.len() {
            made.named.last().layers[0]
        } else {
            made.shared.last()
        };
        assert(layer.output == added.id);
        lemma_count_push(earlier.shared, layer, output);
        lemma_count_push(Seq::empty(), layer, output);
        assert(Seq::<CosmicBgLayer>::empty().push(layer) =~= seq![layer]);
        if made.named.len() > earlier.named.len() {
            lemma_bound_push(earlier.named, made.named.last(), output);
            assert(made.named =~= earlier.named.push(made.named.last()));
            assert(made.named.last().layers =~= seq![layer]);
        } else {
            assert(made.shared =~= earlier.shared.push(layer));
        }
    }
}

/// A change of the store leaves every output bound once, if handles are
/// left for all active outputs.
proof fn lemma_config_changed_keeps(state: CosmicBgView, keys: Seq<Seq<char>>, store: ContextView)
    requires
        state.wf(),
        state.outputs_bound(),
        state.next_layer + state.active_outputs.len() <= u64::MAX,
    ensures
        state.config_changed(keys, store).0.wf(),
        state.config_changed(keys, store).0.outputs_bound(),
{
    let (config, changed) = keys_applied(state.config, keys, store);
    let reloaded = CosmicBgView { config, ..state };
    let next = state.config_changed(keys, store).0;
    lemma_keys_keep_default(state.config, keys, store);
    if changed {
        let count = reloaded.active_outputs.len() as int;
        let made = reloaded.rebuilt(count);
        let all = WallpaperView {
            layers: made.shared,
            ..WallpaperView::fresh(reloaded.config.default_background)
        };
        assert(next.wallpapers == made.named.push(all));
        assert(reloaded.active_outputs.take(count) =~= reloaded.active_outputs);
        assert forall|output: u64|
            (#[trigger] next.layers_on(output)) == occurrences(next.active_outputs, output)
                && occurrences(next.active_outputs, output) <= 1 by {
            lemma_rebuilt_counts(reloaded, count, output);
            lemma_bound_push(made.named, all, output);
            assert(state.layers_on(output) == occurrences(state.active_outputs, output));
        }
    } else {
        lemma_same_outputs_keeps(state, next);
    }
}

/// Every active output is bound to exactly one layer, and so to exactly one
/// wallpaper, and stays so whatever happens, as long as the compositor
/// closes no layer by itself, announces no output twice, and handles are
/// left for the layers that are asked for.
pub proof fn lemma_step_keeps_outputs_bound(state: CosmicBgView, event: EventView)
    requires
        state.wf(),
        state.outputs_bound(),
        !(event is Closed),
        event matches EventView::NewOutput { output, .. } ==> !state.is_active(output),
        state.handles_left(event),
    ensures
        state.step(event).0.wf(),
        state.step(event).0.outputs_bound(),
        forall|output: u64| #[trigger]
            state.step(event).0.is_active(output) ==> state.step(event).0.layers_on(output) == 1,
{
    match event {
        EventView::NewOutput { output, info } => lemma_new_output_keeps(state, output, info),
        EventView::UpdateOutput { output, info } => lemma_update_output_keeps(state, output, info),
        EventView::OutputDestroyed { output } => lemma_output_destroyed_keeps(state, output),
        EventView::ConfigChanged { keys, store } => lemma_config_changed_keeps(
            state,
            keys,
            store,
        ),
        EventView::SourceChanged { source, kind, paths } => lemma_source_changed_keeps(
            state,
            source,
            kind,
            paths,
        ),
        EventView::PowerChanged { .. } => {
            lemma_same_outputs_keeps(state, state.step(event).0);
        },
        EventView::Stop => {
            lemma_same_outputs_keeps(state, state.step(event).0);
        },
        EventView::Drawn { .. } => {
            lemma_same_outputs_keeps(state, state.step(event).0);
        },
        EventView::Closed { .. } => {},
        _ => lemma_layer_events_keep(state, event),
    }
    let next = state.step(event).0;
    assert forall|output: u64| #[trigger] next.is_active(output) implies next.layers_on(output)
        == 1 by {
        assert(next.layers_on(output) == occurrences(next.active_outputs, output));
    }
}

/// The engine starts with every output bound once: none is active, and no
/// layer is there.
pub proof fn lemma_starting_outputs_bound(
    config: ConfigView,
    power: Option<PowerState>,
    fractional_scale_manager: bool,
    compositor_version: u32,
)
    requires
        config.default_background.output == ALL_OUTPUTS@,
    ensures
        CosmicBgView::starting(config, power, fractional_scale_manager, compositor_version).wf(),
        CosmicBgView::starting(
            config,
            power,
            fractional_scale_manager,
            compositor_version,
        ).outputs_bound(),
{
    let state = CosmicBgView::starting(config, power, fractional_scale_manager, compositor_version);
    assert forall|output: u64|
        (#[trigger] state.layers_on(output)) == occurrences(state.active_outputs, output)
            && occurrences(state.active_outputs, output) <= 1 by {
        lemma_occurrences_push(Seq::empty(), arbitrary(), output);
        lemma_no_layers(state.wallpapers, output, state.wallpapers.len() as int);
    }
}

/// Wallpapers without layers have none on any output.
proof fn lemma_no_layers(wallpapers: Seq<WallpaperView>, output: u64, limit: int)
    requires
        limit <= wallpapers.len(),
        forall|k: int| 0 <= k < wallpapers.len() ==> (#[trigger] wallpapers[k]).layers.len() == 0,
    ensures
        bound_count(wallpapers, output, limit) == 0,
    decreases limit,
{
    if limit > 0 {
        lemma_no_layers(wallpapers, output, limit - 1);
        assert(wallpapers[limit - 1].layers =~= Seq::empty());
        lemma_count_push(Seq::empty(), arbitrary(), output);
    }
}

/// Whether what a layer holds fits its wallpaper: graphics state only on an
/// animated one, only while the graphics device is open and only once the
/// layer has its size; a pool only on a still one.
pub open spec fn layer_fits(layer: CosmicBgLayer, shader: bool, gpu_renderer: bool) -> bool {
    &&& layer.gpu_state is Some ==> shader && gpu_renderer && layer.size is Some
    &&& layer.pool is Some ==> !shader
}

impl CosmicBgView {
    /// Only layers of animated wallpapers hold graphics state, and only
    /// while the graphics device is open and once they have their size; only
    /// layers of still wallpapers hold a pool.
    pub open spec fn graphics_consistent(self) -> bool {
        forall|i: int, j: int|
            0 <= i < self.wallpapers.len() && 0 <= j < self.wallpapers[i].layers.len()
                ==> layer_fits(
                #[trigger] self.wallpapers[i].layers[j],
                self.wallpapers[i].is_shader(),
                self.gpu_renderer,
            )
    }

    /// The surface of every layer with graphics state is configured at the
    /// physical size that follows from the layer's logical size, its scale
    /// and the mode of its output.
    pub open spec fn surfaces_sized(self) -> bool {
        forall|i: int, j: int|
            0 <= i < self.wallpapers.len() && 0 <= j < self.wallpapers[i].layers.len() ==> (
            #[trigger] self.wallpapers[i].layers[j]).surface_sized()
    }
}

/// Where what every layer holds fits its wallpaper, no layer holds both a
/// pool and graphics state.
pub proof fn lemma_layers_of_one_kind(state: CosmicBgView)
    requires
        state.graphics_consistent(),
    ensures
        forall|i: int, j: int|
            0 <= i < state.wallpapers.len() && 0 <= j < state.wallpapers[i].layers.len() ==> (
            #[trigger] state.wallpapers[i].layers[j]).one_kind(),
{
    assert forall|i: int, j: int|
        0 <= i < state.wallpapers.len() && 0 <= j < state.wallpapers[i].layers.len() implies (
    #[trigger] state.wallpapers[i].layers[j]).one_kind() by {
        assert(layer_fits(
            state.wallpapers[i].layers[j],
            state.wallpapers[i].is_shader(),
            state.gpu_renderer,
        ));
    }
}

/// What is kept of a list was in the list.
proof fn lemma_kept_was_there<A>(s: Seq<A>, keep: spec_fn(A) -> bool, k: int)
    requires
        0 <= k < s.filter(keep).len(),
    ensures
        exists|from: int| 0 <= from < s.len() && s[from] == s.filter(keep)[k],
    decreases s.len(),
{
    reveal(Seq::filter);
    if s.len() > 0 {
        let earlier = s.drop_last();
        if k < earlier.filter(keep).len() {
            lemma_kept_was_there(earlier, keep, k);
            let from = choose|from: int|
                0 <= from < earlier.len() && earlier[from] == earlier.filter(keep)[k];
            assert(s[from] == s.filter(keep)[k]);
        } else {
            assert(s[s.len() - 1] == s.filter(keep)[k]);
        }
    }
}

/// Dropping layers leaves the surfaces of the others as they were.
proof fn lemma_without_layers_keeps_sized(state: CosmicBgView, selector: LayerSelector)
    requires
        state.graphics_consistent(),
        state.surfaces_sized(),
    ensures
        state.without_layers(selector).0.graphics_consistent(),
        state.without_layers(selector).0.surfaces_sized(),
{
    let next = state.without_layers(selector).0;
    assert forall|i: int, j: int|
        0 <= i < next.wallpapers.len() && 0 <= j < next.wallpapers[i].layers.len() implies (
    #[trigger] next.wallpapers[i].layers[j]).surface_sized() && layer_fits(
        next.wallpapers[i].layers[j],
        next.wallpapers[i].is_shader(),
        next.gpu_renderer,
    ) by {
        lemma_kept_was_there(state.wallpapers[i].layers, passed(selector), j);
        let from = choose|from: int|
            0 <= from < state.wallpapers[i].layers.len() && state.wallpapers[i].layers[from]
                == state.wallpapers[i].layers.filter(passed(selector))[j];
        assert(state.wallpapers[i].layers[from].surface_sized());
    }
}

/// Replacing a layer by one whose surface is sized leaves all surfaces
/// sized.
proof fn lemma_layer_replaced_sized(state: CosmicBgView, i: int, j: int, layer: CosmicBgLayer)
    requires
        state.graphics_consistent(),
        state.surfaces_sized(),
        0 <= i < state.wallpapers.len(),
        0 <= j < state.wallpapers[i].layers.len(),
        layer.surface_sized(),
        layer_fits(layer, state.wallpapers[i].is_shader(), state.gpu_renderer),
    ensures
        state.with_layer(i, j, layer).graphics_consistent(),
        state.with_layer(i, j, layer).surfaces_sized(),
        (CosmicBgView { gpu_renderer: true, ..state.with_layer(i, j, layer) }).graphics_consistent(),
        (CosmicBgView { gpu_renderer: true, ..state.with_layer(i, j, layer) }).surfaces_sized(),
{
    let next = state.with_layer(i, j, layer);
    assert forall|a: int, b: int|
        0 <= a < next.wallpapers.len() && 0 <= b < next.wallpapers[a].layers.len() implies (
    #[trigger] next.wallpapers[a].layers[b]).surface_sized() && layer_fits(
        next.wallpapers[a].layers[b],
        next.wallpapers[a].is_shader(),
        next.gpu_renderer,
    ) by {
        if a != i || b != j {
            assert(next.wallpapers[a].layers[b] == state.wallpapers[a].layers[b]);
        }
    }
}

/// A change of a layer's size or scale leaves all surfaces sized.
proof fn lemma_refreshed_sized(state: CosmicBgView, i: int, j: int, layer: CosmicBgLayer)
    requires
        state.graphics_consistent(),
        state.surfaces_sized(),
        0 <= i < state.wallpapers.len(),
        0 <= j < state.wallpapers[i].layers.len(),
        layer.gpu_state == state.wallpapers[i].layers[j].gpu_state,
        layer.pool == state.wallpapers[i].layers[j].pool,
        layer.size == state.wallpapers[i].layers[j].size,
    ensures
        state.refreshed(i, j, layer).0.graphics_consistent(),
        state.refreshed(i, j, layer).0.surfaces_sized(),
{
    let old = state.wallpapers[i].layers[j];
    assert(layer_fits(old, state.wallpapers[i].is_shader(), state.gpu_renderer));
    if state.wallpapers[i].is_shader() && state.gpu_renderer {
        lemma_layer_replaced_sized(state, i, j, layer.resized());
    } else {
        lemma_layer_replaced_sized(state, i, j, layer);
    }
}

/// The layers of wallpapers made anew have their surfaces sized, and hold
/// graphics state only where they show a shader and the device is open.
proof fn lemma_rebuilt_sized(state: CosmicBgView, limit: int)
    requires
        state.graphics_consistent(),
        state.surfaces_sized(),
    ensures
        forall|k: int|
            0 <= k < state.rebuilt(limit).shared.len() ==> (#[trigger] state.rebuilt(
                limit,
            ).shared[k]).surface_sized() && layer_fits(
                state.rebuilt(limit).shared[k],
                state.config.default_background.source is Shader,
                state.gpu_renderer,
            ),
        forall|i: int, j: int|
            0 <= i < state.rebuilt(limit).named.len() && 0 <= j < state.rebuilt(
                limit,
            ).named[i].layers.len() ==> (#[trigger] state.rebuilt(
                limit,
            ).named[i].layers[j]).surface_sized() && layer_fits(
                state.rebuilt(limit).named[i].layers[j],
                state.rebuilt(limit).named[i].is_shader(),
                state.gpu_renderer,
            ),
    decreases limit,
{
    if limit > 0 {
        lemma_rebuilt_sized(state, limit - 1);
        let earlier = state.rebuilt(limit - 1);
        let made = state.rebuilt(limit);
        if limit <= state.active_outputs.len() {
            let added = state.active_outputs[limit - 1];
            lemma_first_shown(
                state.wallpapers,
                LayerSelector::Output(added.id),
                state.wallpapers.len() as int,
            );
            match state.find_layer(LayerSelector::Output(added.id)) {
                Some((a, b)) => {
                    let old = state.wallpapers[a].layers[b];
                    assert(old.surface_sized());
                    assert(layer_fits(old, state.wallpapers[a].is_shader(), state.gpu_renderer));
                },
                None => {},
            }
        }
        assert forall|k: int| 0 <= k < made.shared.len() implies (#[trigger] made.shared[k]).surface_sized()
            && layer_fits(
            made.shared[k],
            state.config.default_background.source is Shader,
            state.gpu_renderer,
        ) by {
            if k < earlier.shared.len() {
                assert(made.shared[k] == earlier.shared[k]);
            }
        }
        assert forall|i: int, j: int|
            0 <= i < made.named.len() && 0 <= j < made.named[i].layers.len() implies (
        #[trigger] made.named[i].layers[j]).surface_sized() && layer_fits(
            made.named[i].layers[j],
            made.named[i].is_shader(),
            state.gpu_renderer,
        ) by {
            if i < earlier.named.len() {
                assert(made.named[i].layers[j] == earlier.named[i].layers[j]);
            }
        }
    }
}

/// The surface of every layer with graphics state is configured at the
/// layer's physical size, and stays so whatever happens.
pub proof fn lemma_step_keeps_surfaces_sized(state: CosmicBgView, event: EventView)
    requires
        state.graphics_consistent(),
        state.surfaces_sized(),
    ensures
        state.step(event).0.graphics_consistent(),
        state.step(event).0.surfaces_sized(),
{
    let next = state.step(event).0;
    match event {
        EventView::NewOutput { output, info } => {
            assert forall|a: int, b: int|
                0 <= a < next.wallpapers.len() && 0 <= b < next.wallpapers[a].layers.len() implies (
            #[trigger] next.wallpapers[a].layers[b]).surface_sized() && layer_fits(
                next.wallpapers[a].layers[b],
                next.wallpapers[a].is_shader(),
                next.gpu_renderer,
            ) by {
                lemma_first_free(
                    state.wallpapers,
                    info.name,
                    output,
                    state.wallpapers.len() as int,
                );
                if b < state.wallpapers[a].layers.len() {
                    assert(next.wallpapers[a].layers[b] == state.wallpapers[a].layers[b]);
                }
            }
        },
        EventView::UpdateOutput { output, info } => {
            let informed = state.informed(output, info);
            assert(informed.wallpapers == state.wallpapers);
            assert(informed.graphics_consistent() && informed.surfaces_sized());
            lemma_first_shown(
                informed.wallpapers,
                LayerSelector::Output(output),
                informed.wallpapers.len() as int,
            );
            match informed.find_layer(LayerSelector::Output(output)) {
                Some((i, j)) => {
                    lemma_refreshed_sized(
                        informed,
                        i,
                        j,
                        CosmicBgLayer {
                            scale_factor: info.scale_factor,
                            mode: info.mode,
                            fractional_scale: Some(whole_scale(info.scale_factor)),
                            ..informed.wallpapers[i].layers[j]
                        },
                    );
                },
                None => {},
            }
        },
        EventView::OutputDestroyed { output } => {
            let remaining = CosmicBgView {
                active_outputs: state.active_outputs.filter(
                    other_than(output),
                ),
                ..state
            };
            assert(remaining.graphics_consistent() && remaining.surfaces_sized());
            lemma_without_layers_keeps_sized(remaining, LayerSelector::Output(output));
        },
        EventView::Closed { layer } => {
            lemma_without_layers_keeps_sized(state, LayerSelector::Id(layer));
        },
        EventView::ConfigChanged { keys, store } => {
            let (config, changed) = keys_applied(state.config, keys, store);
            let reloaded = CosmicBgView { config, ..state };
            if changed {
                assert(reloaded.graphics_consistent() && reloaded.surfaces_sized());
                lemma_rebuilt_sized(reloaded, reloaded.active_outputs.len() as int);
                let made = reloaded.rebuilt(reloaded.active_outputs.len() as int);
                assert forall|a: int, b: int|
                    0 <= a < next.wallpapers.len() && 0 <= b < next.wallpapers[a].layers.len() implies (
                #[trigger] next.wallpapers[a].layers[b]).surface_sized() && layer_fits(
                    next.wallpapers[a].layers[b],
                    next.wallpapers[a].is_shader(),
                    next.gpu_renderer,
                ) by {
                    if a < made.named.len() {
                        assert(next.wallpapers[a].layers[b] == made.named[a].layers[b]);
                    } else {
                        assert(next.wallpapers[a].layers[b] == made.shared[b]);
                    }
                }
            } else {
                assert(next.wallpapers == state.wallpapers);
            }
        },
        EventView::SourceChanged { source, kind, paths } => {
            assert forall|a: int, b: int|
                0 <= a < next.wallpapers.len() && 0 <= b < next.wallpapers[a].layers.len() implies (
            #[trigger] next.wallpapers[a].layers[b]).surface_sized() && layer_fits(
                next.wallpapers[a].layers[b],
                next.wallpapers[a].is_shader(),
                next.gpu_renderer,
            ) by {
                assert(next.wallpapers[a].layers[b] == state.wallpapers[a].layers[b]);
            }
        },
        EventView::PowerChanged { .. } => {},
        EventView::Stop => {},
        EventView::Drawn { wallpaper } => {
            assert forall|a: int, b: int|
                0 <= a < next.wallpapers.len() && 0 <= b < next.wallpapers[a].layers.len() implies (
            #[trigger] next.wallpapers[a].layers[b]).surface_sized() && layer_fits(
                next.wallpapers[a].layers[b],
                next.wallpapers[a].is_shader(),
                next.gpu_renderer,
            ) by {
                assert(state.wallpapers[a].layers[b].surface_sized());
                assert(layer_fits(
                    state.wallpapers[a].layers[b],
                    state.wallpapers[a].is_shader(),
                    state.gpu_renderer,
                ));
            }
        },
        EventView::Configure { layer, width, height } => {
            lemma_first_shown(
                state.wallpapers,
                LayerSelector::Id(layer),
                state.wallpapers.len() as int,
            );
            match state.find_layer(LayerSelector::Id(layer)) {
                Some((i, j)) => {
                    let old = state.wallpapers[i].layers[j];
                    let sized = CosmicBgLayer {
                        size: Some((width, height)),
                        needs_redraw: true,
                        ..old
                    };
                    assert(layer_fits(old, state.wallpapers[i].is_shader(), state.gpu_renderer));
                    if sized.gpu_state is None {
                        lemma_layer_replaced_sized(state, i, j, sized);
                    } else {
                        lemma_layer_replaced_sized(state, i, j, sized.resized());
                    }
                },
                None => {},
            }
        },
        EventView::PoolReady { layer, bytes, ok } => {
            lemma_first_shown(
                state.wallpapers,
                LayerSelector::Id(layer),
                state.wallpapers.len() as int,
            );
            match state.find_layer(LayerSelector::Id(layer)) {
                Some((i, j)) => {
                    let old = state.wallpapers[i].layers[j];
                    assert(old.surface_sized());
                    assert(layer_fits(old, state.wallpapers[i].is_shader(), state.gpu_renderer));
                    if next != state {
                        lemma_layer_replaced_sized(
                            state,
                            i,
                            j,
                            CosmicBgLayer { pool: Some(bytes), ..old },
                        );
                    }
                },
                None => {},
            }
        },
        EventView::CanvasBuilt { layer, canvas, now } => {
            lemma_first_shown(
                state.wallpapers,
                LayerSelector::Id(layer),
                state.wallpapers.len() as int,
            );
            match state.find_layer(LayerSelector::Id(layer)) {
                Some((i, j)) => {
                    if next != state {
                        lemma_layer_replaced_sized(state, i, j, next.wallpapers[i].layers[j]);
                    }
                },
                None => {},
            }
        },
        EventView::Frame { layer, now } => {
            lemma_first_shown(
                state.wallpapers,
                LayerSelector::Id(layer),
                state.wallpapers.len() as int,
            );
            match state.find_layer(LayerSelector::Id(layer)) {
                Some((i, j)) => {
                    let old = state.wallpapers[i].layers[j];
                    assert(old.surface_sized());
                    assert(layer_fits(old, state.wallpapers[i].is_shader(), state.gpu_renderer));
                    if next != state {
                        lemma_layer_replaced_sized(state, i, j, next.wallpapers[i].layers[j]);
                    }
                },
                None => {},
            }
        },
        EventView::FrameResult { layer, first, outcome, now } => {
            lemma_first_shown(
                state.wallpapers,
                LayerSelector::Id(layer),
                state.wallpapers.len() as int,
            );
            match state.find_layer(LayerSelector::Id(layer)) {
                Some((i, j)) => {
                    let old = state.wallpapers[i].layers[j];
                    assert(old.surface_sized());
                    assert(layer_fits(old, state.wallpapers[i].is_shader(), state.gpu_renderer));
                    if next != state {
                        lemma_layer_replaced_sized(state, i, j, next.wallpapers[i].layers[j]);
                    }
                },
                None => {},
            }
        },
        EventView::ScaleFactorChanged { layer, factor } => {
            lemma_first_shown(
                state.wallpapers,
                LayerSelector::Id(layer),
                state.wallpapers.len() as int,
            );
            match state.find_layer(LayerSelector::Id(layer)) {
                Some((i, j)) => {
                    lemma_refreshed_sized(
                        state,
                        i,
                        j,
                        CosmicBgLayer {
                            fractional_scale: Some(whole_scale(factor)),
                            ..state.wallpapers[i].layers[j]
                        },
                    );
                },
                None => {},
            }
        },
        EventView::PreferredScale { layer, scale } => {
            lemma_first_shown(
                state.wallpapers,
                LayerSelector::Id(layer),
                state.wallpapers.len() as int,
            );
            match state.find_layer(LayerSelector::Id(layer)) {
                Some((i, j)) => {
                    lemma_refreshed_sized(
                        state,
                        i,
                        j,
                        CosmicBgLayer {
                            fractional_scale: Some(scale),
                            ..state.wallpapers[i].layers[j]
                        },
                    );
                },
                None => {},
            }
        },
    }
}

/// The engine starts without graphics state, so with every surface sized.
pub proof fn lemma_starting_surfaces_sized(
    config: ConfigView,
    power: Option<PowerState>,
    fractional_scale_manager: bool,
    compositor_version: u32,
)
    ensures
        CosmicBgView::starting(
            config,
            power,
            fractional_scale_manager,
            compositor_version,
        ).graphics_consistent(),
        CosmicBgView::starting(
            config,
            power,
            fractional_scale_manager,
            compositor_version,
        ).surfaces_sized(),
{
}

/// An output whose name no wallpaper carries, and which is shown nowhere
/// yet, is taken by a wallpaper for all outputs: that wallpaper gets the new
/// layer.
pub proof fn lemma_unknown_output_takes_fallback(
    state: CosmicBgView,
    output: u64,
    info: OutputInfoView,
)
    requires
        state.wf(),
        state.layers_on(output) == 0,
        state.next_layer < u64::MAX,
        forall|k: int|
            0 <= k < state.wallpapers.len() ==> Some((#[trigger] state.wallpapers[k]).entry.output)
                != info.name,
    ensures
        first_free(state.wallpapers, info.name, output, state.wallpapers.len() as int) is Some,
        ({
            let i = first_free(
                state.wallpapers,
                info.name,
                output,
                state.wallpapers.len() as int,
            )->Some_0;
            &&& 0 <= i < state.wallpapers.len()
            &&& state.wallpapers[i].entry.output == ALL_OUTPUTS@
            &&& state.new_output(output, info).0.wallpapers[i].layers
                == state.wallpapers[i].layers.push(
                state.new_layer(state.next_layer, output, info),
            )
        }),
{
    let count = state.wallpapers.len() as int;
    lemma_bound_zero(state.wallpapers, output, count);
    lemma_first_free(state.wallpapers, info.name, output, count);
    assert(selects(state.wallpapers[count - 1].entry.output, info.name));
    assert(!state.wallpapers[count - 1].shown_on(output));
}

/// Once an active output went away, no layer is left on it, and a frame
/// callback or a frame outcome that still comes in for one of its layers
/// changes nothing and asks for nothing.
pub proof fn lemma_gone_output_drops_frames(
    state: CosmicBgView,
    output: u64,
    layer: u64,
    first: bool,
    outcome: SurfaceOutcome,
    now: u64,
)
    requires
        state.is_active(output),
        forall|i: int, j: int|
            0 <= i < state.wallpapers.len() && 0 <= j < state.wallpapers[i].layers.len() && (
            #[trigger] state.wallpapers[i].layers[j]).id == layer
                ==> state.wallpapers[i].layers[j].output == output,
    ensures
        state.output_destroyed(output).0.layers_on(output) == 0,
        state.output_destroyed(output).0.frame(layer, now) == (
            state.output_destroyed(output).0,
            Seq::<Action>::empty(),
        ),
        state.output_destroyed(output).0.frame_result(layer, first, outcome, now) == (
            state.output_destroyed(output).0,
            Seq::<Action>::empty(),
        ),
{
    let next = state.output_destroyed(output).0;
    let keep = passed(LayerSelector::Output(output));
    lemma_occurs(state.active_outputs, output);
    lemma_bound_stripped(state.wallpapers, output, output, state.wallpapers.len() as int);
    lemma_first_shown(next.wallpapers, LayerSelector::Id(layer), next.wallpapers.len() as int);
    if next.find_layer(LayerSelector::Id(layer)) is Some {
        let (i, j) = next.find_layer(LayerSelector::Id(layer))->Some_0;
        let kept = next.wallpapers[i].layers[j];
        assert(next.wallpapers[i].layers == state.wallpapers[i].layers.filter(keep));
        lemma_kept_was_there(state.wallpapers[i].layers, keep, j);
        state.wallpapers[i].layers.lemma_filter_pred(keep, j);
        let from = choose|from: int|
            0 <= from < state.wallpapers[i].layers.len() && state.wallpapers[i].layers[from]
                == state.wallpapers[i].layers.filter(keep)[j];
        assert(state.wallpapers[i].layers[from].id == layer);
        assert(state.wallpapers[i].layers[from].output == output);
        assert(!keep(kept));
    }
}

/// Over a whole run of events from a state in which what every layer holds
/// fits its wallpaper and every surface has its layer's physical size, the
/// same holds of the state that the run ends in.
pub proof fn lemma_run_keeps_surfaces_sized(state: CosmicBgView, events: Seq<EventView>)
    requires
        state.graphics_consistent(),
        state.surfaces_sized(),
    ensures
        state.run(events).0.graphics_consistent(),
        state.run(events).0.surfaces_sized(),
    decreases events.len(),
{
    if events.len() > 0 {
        lemma_run_keeps_surfaces_sized(state, events.drop_last());
        let reached = state.run(events.drop_last()).0;
        if !reached.exit {
            lemma_step_keeps_surfaces_sized(reached, events.last());
        }
    }
}

/// An output that comes while no layer is on it, and while a handle is
/// left, is active afterwards and has exactly one layer: a new one without
/// size, pool or graphics state, behind the layers of the first wallpaper
/// that is for it. Every other wallpaper keeps its layers, and every other
/// output its number of layers.
pub proof fn lemma_new_output_binds(state: CosmicBgView, output: u64, info: OutputInfoView)
    requires
        state.wf(),
        state.layers_on(output) == 0,
        state.next_layer < u64::MAX,
    ensures
        state.new_output(output, info).0.is_active(output),
        state.new_output(output, info).0.layers_on(output) == 1,
        forall|other: u64|
            other != output ==> #[trigger] state.new_output(output, info).0.layers_on(other)
                == state.layers_on(other),
        first_free(state.wallpapers, info.name, output, state.wallpapers.len() as int) is Some,
        ({
            let next = state.new_output(output, info).0;
            let i = first_free(
                state.wallpapers,
                info.name,
                output,
                state.wallpapers.len() as int,
            )->Some_0;
            let layer = state.new_layer(state.next_layer, output, info);
            &&& 0 <= i < state.wallpapers.len()
            &&& selects(state.wallpapers[i].entry.output, info.name)
            &&& next.wallpapers.len() == state.wallpapers.len()
            &&& next.wallpapers[i].layers == state.wallpapers[i].layers.push(layer)
            &&& layer.output == output && layer.size is None && layer.pool is None
                && layer.gpu_state is None
            &&& forall|k: int|
                0 <= k < state.wallpapers.len() && k != i ==> #[trigger] next.wallpapers[k]
                    == state.wallpapers[k]
        }),
{
    let next = state.new_output(output, info).0;
    let count = state.wallpapers.len() as int;
    lemma_bound_zero(state.wallpapers, output, count);
    lemma_first_free(state.wallpapers, info.name, output, count);
    assert(selects(state.wallpapers[count - 1].entry.output, info.name));
    assert(!state.wallpapers[count - 1].shown_on(output));
    let i = first_free(state.wallpapers, info.name, output, count)->Some_0;
    let layer = state.new_layer(state.next_layer, output, info);
    let wallpaper = WallpaperView {
        layers: state.wallpapers[i].layers.push(layer),
        ..state.wallpapers[i]
    };
    assert(next.wallpapers == state.wallpapers.update(i, wallpaper));
    assert forall|other: u64| true implies #[trigger] next.layers_on(other) == state.layers_on(
        other,
    ) + if other == output {
        1nat
    } else {
        0nat
    } by {
        lemma_bound_update(state.wallpapers, i, wallpaper, other, count);
        lemma_count_push(state.wallpapers[i].layers, layer, other);
    }
    lemma_occurrences_push(state.active_outputs, ActiveOutputView { id: output, info }, output);
}

/// Whether the wallpapers made anew so far stand where they belong: each
/// wallpaper of its own shows the entry for the name of the one output
/// whose layer it holds, and each layer of the wallpaper for all outputs is
/// on an output for whose name there is no entry.
pub open spec fn well_placed(state: CosmicBgView, made: Rebuilt) -> bool {
    &&& forall|i: int|
        0 <= i < made.named.len() ==> (#[trigger] made.named[i]).layers.len() == 1 && exists|
            k: int,
        |
            0 <= k < state.active_outputs.len() && (#[trigger] state.active_outputs[k]).id
                == made.named[i].layers[0].output && made.named[i].entry.output == name_or_empty(
                state.active_outputs[k].info.name,
            ) && position_of(
                state.config.backgrounds,
                made.named[i].entry.output,
                state.config.backgrounds.len() as int,
            ) is Some && made.named[i].entry == state.config.backgrounds[position_of(
                state.config.backgrounds,
                made.named[i].entry.output,
                state.config.backgrounds.len() as int,
            )->Some_0]
    &&& forall|j: int|
        0 <= j < made.shared.len() ==> exists|k: int|
            0 <= k < state.active_outputs.len() && (#[trigger] state.active_outputs[k]).id == (
            #[trigger] made.shared[j]).output && position_of(
                state.config.backgrounds,
                name_or_empty(state.active_outputs[k].info.name),
                state.config.backgrounds.len() as int,
            ) is None
}

/// The wallpapers made anew for the first `limit` outputs stand where they
/// belong.
proof fn lemma_rebuilt_placed(state: CosmicBgView, limit: int)
    requires
        limit <= state.active_outputs.len(),
    ensures
        well_placed(state, state.rebuilt(limit)),
    decreases limit,
{
    if limit > 0 {
        lemma_rebuilt_placed(state, limit - 1);
        let earlier = state.rebuilt(limit - 1);
        let made = state.rebuilt(limit);
        let added = state.active_outputs[limit - 1];
        let name = name_or_empty(added.info.name);
        let count = state.config.backgrounds.len() as int;
        lemma_position_of(state.config.backgrounds, name, count);
        lemma_first_shown(
            state.wallpapers,
            LayerSelector::Output(added.id),
            state.wallpapers.len() as int,
        );
        assert forall|i: int| 0 <= i < made.named.len() implies (#[trigger] made.named[i]).layers.len()
            == 1 && exists|k: int|
            0 <= k < state.active_outputs.len() && (#[trigger] state.active_outputs[k]).id
                == made.named[i].layers[0].output && made.named[i].entry.output == name_or_empty(
                state.active_outputs[k].info.name,
            ) && position_of(state.config.backgrounds, made.named[i].entry.output, count) is Some
                && made.named[i].entry == state.config.backgrounds[position_of(
                state.config.backgrounds,
                made.named[i].entry.output,
                count,
            )->Some_0] by {
            if i < earlier.named.len() {
                assert(made.named[i] == earlier.named[i]);
            } else {
                assert(state.active_outputs[limit - 1].id == made.named[i].layers[0].output);
            }
        }
        assert forall|j: int| 0 <= j < made.shared.len() implies exists|k: int|
            0 <= k < state.active_outputs.len() && (#[trigger] state.active_outputs[k]).id == (
            #[trigger] made.shared[j]).output && position_of(
                state.config.backgrounds,
                name_or_empty(state.active_outputs[k].info.name),
                count,
            ) is None by {
            if j < earlier.shared.len() {
                assert(made.shared[j] == earlier.shared[j]);
            } else {
                assert(state.active_outputs[limit - 1].id == made.shared[j].output);
            }
        }
    }
}

/// Once the wallpapers are made anew, with no output active twice and
/// handles left for all of them, every active output has exactly one layer
/// and no other output has any. The layer is in a wallpaper of its own for
/// the entry under the output's name, if the configuration has one, and
/// else in the wallpaper for all outputs, which is the last and shows the
/// default entry.
pub proof fn lemma_apply_backgrounds_binds(state: CosmicBgView)
    requires
        forall|output: u64| #[trigger] occurrences(state.active_outputs, output) <= 1,
        state.next_layer + state.active_outputs.len() <= u64::MAX,
    ensures
        forall|output: u64| #[trigger]
            state.apply_backgrounds().0.layers_on(output) == occurrences(
                state.active_outputs,
                output,
            ),
        state.apply_backgrounds().0.active_outputs == state.active_outputs,
        state.apply_backgrounds().0.wallpapers.len() > 0,
        state.apply_backgrounds().0.wallpapers.last().entry == state.config.default_background,
        well_placed(
            state,
            Rebuilt {
                named: state.apply_backgrounds().0.wallpapers.drop_last(),
                shared: state.apply_backgrounds().0.wallpapers.last().layers,
                actions: Seq::empty(),
                next_layer: 0,
            },
        ),
{
    let next = state.apply_backgrounds().0;
    let count = state.active_outputs.len() as int;
    let made = state.rebuilt(count);
    let all = WallpaperView {
        layers: made.shared,
        ..WallpaperView::fresh(state.config.default_background)
    };
    assert(next.wallpapers == made.named.push(all));
    assert(next.wallpapers.drop_last() =~= made.named);
    assert(state.active_outputs.take(count) =~= state.active_outputs);
    assert forall|output: u64| #[trigger]
        next.layers_on(output) == occurrences(state.active_outputs, output) by {
        lemma_rebuilt_counts(state, count, output);
        lemma_bound_push(made.named, all, output);
    }
    lemma_rebuilt_placed(state, count);
}

} // verus!
