//! Changes of the configuration and of the watched image directories.

use vstd::prelude::*;

use crate::config::{
    entry_views, find_entry, normalized_entry, position_of, Config, ConfigView, EntryView, Source,
    SourceView, BACKGROUNDS, DEFAULT_BACKGROUND, OUTPUT_PREFIX, SAME_ON_ALL,
};
use crate::context::{Context, ContextView};
use crate::engine::outputs::{destroy_actions, output_position, push_destroys};
use crate::engine::{pool_bytes, pool_size, wallpaper_views, Action, CosmicBg, CosmicBgView};
use crate::layer::CosmicBgLayer;
use crate::power_saving::{
    ADJUST_ON_BATTERY, COVERAGE_THRESHOLD, LOW_BATTERY_THRESHOLD, ON_BATTERY_ACTION,
    PAUSE_ON_COVERED, PAUSE_ON_FULLSCREEN, PAUSE_ON_LID_CLOSED, PAUSE_ON_LOW_BATTERY,
};
use crate::text::{same_text, strip_prefix};
use crate::upower::PowerState;
use crate::wallpaper::{
    paths_view, queue_with, queue_without, LayerSelector, Wallpaper, WallpaperView,
};

verus! {

/// What happened to a path in a watched directory.
#[derive(Debug, Clone, Copy, PartialEq, Eq, Structural)]
pub enum WatchKind {
    Created,
    RemovedRenamedAway,
    RenamedInto,
    Modified,
}

/// Whether `key` is one of the power-saving keys.
pub open spec fn is_power_saving_key(key: Seq<char>) -> bool {
    ||| key == PAUSE_ON_FULLSCREEN@
    ||| key == PAUSE_ON_COVERED@
    ||| key == COVERAGE_THRESHOLD@
    ||| key == ADJUST_ON_BATTERY@
    ||| key == ON_BATTERY_ACTION@
    ||| key == PAUSE_ON_LOW_BATTERY@
    ||| key == LOW_BATTERY_THRESHOLD@
    ||| key == PAUSE_ON_LID_CLOSED@
}

/// Executable form of [`is_power_saving_key`].
pub fn power_saving_key(key: &str) -> (r: bool)
    ensures
        r == is_power_saving_key(key@),
{
    same_text(key, PAUSE_ON_FULLSCREEN) || same_text(key, PAUSE_ON_COVERED) || same_text(
        key,
        COVERAGE_THRESHOLD,
    ) || same_text(key, ADJUST_ON_BATTERY) || same_text(key, ON_BATTERY_ACTION) || same_text(
        key,
        PAUSE_ON_LOW_BATTERY,
    ) || same_text(key, LOW_BATTERY_THRESHOLD) || same_text(key, PAUSE_ON_LID_CLOSED)
}

/// The name of the output whose entry is stored under `key`, for a key of
/// the form `output.` and a name.
pub open spec fn output_of_key(key: Seq<char>) -> Option<Seq<char>> {
    if OUTPUT_PREFIX@.is_prefix_of(key) {
        Some(key.skip(OUTPUT_PREFIX@.len() as int))
    } else {
        None
    }
}

/// The configuration after the store changed under `key`, and whether the
/// wallpapers have to be made anew.
///
/// The list of entries is read again. The default entry is read again and
/// counts only if it differs. The switch for the same background everywhere
/// is read again; switched on it clears the entries for single outputs,
/// switched off it reads them again. A power-saving key reads the power
/// settings again, and leaves the wallpapers alone. The key of an output's
/// entry replaces that entry, if the store has it and the configuration has
/// one for that output. Any other key changes nothing.
pub open spec fn key_applied(config: ConfigView, key: Seq<char>, store: ContextView) -> (
    ConfigView,
    bool,
) {
    let stored = store.config();
    if key == BACKGROUNDS@ {
        (ConfigView { backgrounds: stored.backgrounds, ..config }, true)
    } else if key == DEFAULT_BACKGROUND@ {
        if config.default_background != stored.default_background {
            (ConfigView { default_background: stored.default_background, ..config }, true)
        } else {
            (config, false)
        }
    } else if key == SAME_ON_ALL@ {
        (
            ConfigView {
                same_on_all: stored.same_on_all,
                backgrounds: if stored.same_on_all {
                    Seq::empty()
                } else {
                    stored.backgrounds
                },
                ..config
            },
            true,
        )
    } else if is_power_saving_key(key) {
        (ConfigView { power_saving: stored.power_saving, ..config }, false)
    } else {
        match output_of_key(key) {
            Some(name) => match position_of(store.outputs, name, store.outputs.len() as int) {
                Some(s) => match position_of(
                    config.backgrounds,
                    name,
                    config.backgrounds.len() as int,
                ) {
                    Some(b) => (
                        ConfigView {
                            backgrounds: config.backgrounds.update(
                                b,
                                normalized_entry(store.outputs[s]),
                            ),
                            ..config
                        },
                        true,
                    ),
                    None => (config, false),
                },
                None => (config, false),
            },
            None => (config, false),
        }
    }
}

/// The configuration after the store changed under each of `keys`, in
/// order, and whether the wallpapers have to be made anew.
pub open spec fn keys_applied(config: ConfigView, keys: Seq<Seq<char>>, store: ContextView) -> (
    ConfigView,
    bool,
)
    decreases keys.len(),
{
    if keys.len() == 0 {
        (config, false)
    } else {
        let (earlier, changed) = keys_applied(config, keys.drop_last(), store);
        let (last, changes) = key_applied(earlier, keys.last(), store);
        (last, changed || changes)
    }
}

/// The name that an output's entry is looked up by: its own, or the empty
/// name if it has none.
pub open spec fn name_or_empty(name: Option<Seq<char>>) -> Seq<char> {
    match name {
        Some(name) => name,
        None => Seq::empty(),
    }
}

/// A layer carried over from a wallpaper that shows `from` to one that
/// shows `to`.
///
/// It is to be drawn again. It keeps its pool if both are still, and its
/// graphics state if both are the same shader; what it does not keep it
/// builds up again.
pub open spec fn carried(old: CosmicBgLayer, from: SourceView, to: SourceView) -> CosmicBgLayer {
    CosmicBgLayer {
        needs_redraw: true,
        pool: if from is Shader || to is Shader {
            None
        } else {
            old.pool
        },
        gpu_state: if to is Shader && from == to {
            old.gpu_state
        } else {
            None
        },
        ..old
    }
}

/// Letting go of what a layer held and, carried over, does not hold any
/// more.
pub open spec fn release_actions(old: CosmicBgLayer, moved: CosmicBgLayer) -> Seq<Action> {
    (if old.gpu_state is Some && moved.gpu_state is None {
        seq![Action::ReleaseGraphics { layer: old.id }]
    } else {
        Seq::empty()
    }) + (if old.pool is Some && moved.pool is None {
        seq![Action::ReleasePool { layer: old.id }]
    } else {
        Seq::empty()
    })
}

/// What sets a layer of the wallpaper at `wallpaper` going: with a size, an
/// animated layer without graphics state asks for its canvas, and a still
/// layer for its pool. A layer without a size waits for its configure.
pub open spec fn kick(layer: CosmicBgLayer, shader: bool, wallpaper: usize) -> Seq<Action> {
    match layer.size {
        Some((width, height)) => if shader {
            if layer.gpu_state is None {
                seq![Action::BuildCanvas { layer: layer.id, wallpaper }]
            } else {
                Seq::empty()
            }
        } else {
            match pool_bytes(width, height) {
                Some(bytes) => seq![Action::EnsurePool { layer: layer.id, bytes }],
                None => Seq::empty(),
            }
        },
        None => Seq::empty(),
    }
}

/// What sets the first `limit` layers of a wallpaper going.
pub open spec fn kicks_in(wallpaper: WallpaperView, index: usize, limit: int) -> Seq<Action>
    decreases limit,
{
    if limit <= 0 {
        Seq::empty()
    } else if limit <= wallpaper.layers.len() {
        kicks_in(wallpaper, index, limit - 1) + kick(
            wallpaper.layers[limit - 1],
            wallpaper.is_shader(),
            index,
        )
    } else {
        kicks_in(wallpaper, index, limit - 1)
    }
}

/// What sets the layers of the first `limit` wallpapers going.
pub open spec fn kicks(wallpapers: Seq<WallpaperView>, limit: int) -> Seq<Action>
    decreases limit,
{
    if limit <= 0 {
        Seq::empty()
    } else if limit <= wallpapers.len() {
        kicks(wallpapers, limit - 1) + kicks_in(
            wallpapers[limit - 1],
            (limit - 1) as usize,
            wallpapers[limit - 1].layers.len() as int,
        )
    } else {
        kicks(wallpapers, limit - 1)
    }
}

/// What making the wallpapers anew has come to after some of the outputs.
pub struct Rebuilt {
    /// The wallpapers of the outputs that have an entry of their own.
    pub named: Seq<WallpaperView>,
    /// The layers of the wallpaper for all outputs.
    pub shared: Seq<CosmicBgLayer>,
    /// What was asked for.
    pub actions: Seq<Action>,
    /// The handle that the next layer gets.
    pub next_layer: u64,
}

/// The effect of a file event on a wallpaper: see
/// [`CosmicBgView::source_changed`].
pub open spec fn watched(source: Seq<char>, kind: WatchKind, paths: Seq<Seq<char>>) -> spec_fn(
    WallpaperView,
) -> WallpaperView {
    |w: WallpaperView|
        if w.entry.output == source {
            match kind {
                WatchKind::Created | WatchKind::RenamedInto => WallpaperView {
                    image_queue: queue_with(w.image_queue, paths),
                    ..w
                },
                WatchKind::RemovedRenamedAway => WallpaperView {
                    image_queue: queue_without(w.image_queue, paths),
                    ..w
                },
                WatchKind::Modified => w,
            }
        } else {
            w
        }
}

/// The wallpapers that the engine starts with: one for each entry of a
/// single output, in order, then the one for all outputs.
pub open spec fn starting_wallpapers(config: ConfigView) -> Seq<WallpaperView> {
    config.backgrounds.map_values(|e: EntryView| WallpaperView::fresh(e)).push(
        WallpaperView::fresh(config.default_background),
    )
}

impl CosmicBgView {
    /// Whether the layer at place `(i, j)` stays when the wallpapers are
    /// made anew: its output is active, and it is the first layer on it.
    pub open spec fn is_carried(self, i: int, j: int) -> bool {
        let output = self.wallpapers[i].layers[j].output;
        &&& output_position(
            self.active_outputs,
            output,
            self.active_outputs.len() as int,
        ) is Some
        &&& self.find_layer(LayerSelector::Output(output)) == Some((i, j))
    }

    /// The handles of the first `limit` layers of the wallpaper at `i` that
    /// do not stay when the wallpapers are made anew.
    pub open spec fn leftover_in(self, i: int, limit: int) -> Seq<u64>
        decreases limit,
    {
        if limit <= 0 {
            Seq::empty()
        } else if limit <= self.wallpapers[i].layers.len() && !self.is_carried(i, limit - 1) {
            self.leftover_in(i, limit - 1).push(self.wallpapers[i].layers[limit - 1].id)
        } else {
            self.leftover_in(i, limit - 1)
        }
    }

    /// The handles of the layers of the first `limit` wallpapers that do not
    /// stay when the wallpapers are made anew.
    pub open spec fn leftovers(self, limit: int) -> Seq<u64>
        decreases limit,
    {
        if limit <= 0 {
            Seq::empty()
        } else if limit <= self.wallpapers.len() {
            self.leftovers(limit - 1) + self.leftover_in(
                limit - 1,
                self.wallpapers[limit - 1].layers.len() as int,
            )
        } else {
            self.leftovers(limit - 1)
        }
    }

    /// What the wallpapers made anew have come to once `layer` is placed for
    /// an output whose entry is at `entry_at`, or which has none.
    ///
    /// A layer of an output with an entry gets a wallpaper of its own, and
    /// what that shows is written down; any other goes to the wallpaper for
    /// all outputs.
    pub open spec fn placed(
        self,
        earlier: Rebuilt,
        layer: CosmicBgLayer,
        actions: Seq<Action>,
        entry_at: Option<int>,
        next_layer: u64,
    ) -> Rebuilt {
        match entry_at {
            Some(b) => Rebuilt {
                named: earlier.named.push(
                    WallpaperView {
                        layers: seq![layer],
                        ..WallpaperView::fresh(self.config.backgrounds[b])
                    },
                ),
                actions: earlier.actions + actions + seq![
                    Action::SaveState { wallpaper: earlier.named.len() as usize },
                ],
                next_layer,
                ..earlier
            },
            None => Rebuilt {
                shared: earlier.shared.push(layer),
                actions: earlier.actions + actions,
                next_layer,
                ..earlier
            },
        }
    }

    /// What making the wallpapers anew comes to after the first `limit`
    /// active outputs.
    ///
    /// An output that has a layer keeps its first layer, carried over to the
    /// source that the output shows from now on: see [`carried`]. An output
    /// without a layer gets a new one with the next handle, and none if no
    /// handle is left.
    pub open spec fn rebuilt(self, limit: int) -> Rebuilt
        decreases limit,
    {
        if limit <= 0 {
            Rebuilt {
                named: Seq::empty(),
                shared: Seq::empty(),
                actions: Seq::empty(),
                next_layer: self.next_layer,
            }
        } else {
            let earlier = self.rebuilt(limit - 1);
            if limit > self.active_outputs.len() {
                earlier
            } else {
                let output = self.active_outputs[limit - 1];
                let entry_at = position_of(
                    self.config.backgrounds,
                    name_or_empty(output.info.name),
                    self.config.backgrounds.len() as int,
                );
                let target = match entry_at {
                    Some(b) => self.config.backgrounds[b].source,
                    None => self.config.default_background.source,
                };
                match self.find_layer(LayerSelector::Output(output.id)) {
                    Some((i, j)) => {
                        let old = self.wallpapers[i].layers[j];
                        let moved = carried(old, self.wallpapers[i].entry.source, target);
                        self.placed(
                            earlier,
                            moved,
                            release_actions(old, moved),
                            entry_at,
                            earlier.next_layer,
                        )
                    },
                    None => if earlier.next_layer == u64::MAX {
                        earlier
                    } else {
                        self.placed(
                            earlier,
                            self.new_layer(earlier.next_layer, output.id, output.info),
                            seq![
                                Action::CreateLayer {
                                    layer: earlier.next_layer,
                                    output: output.id,
                                    fractional_scale: self.fractional_scale_manager,
                                },
                            ],
                            entry_at,
                            (earlier.next_layer + 1) as u64,
                        )
                    },
                }
            }
        }
    }

    /// The wallpapers are made anew from the configuration.
    ///
    /// Layers of outputs that are gone, and layers beyond the first on an
    /// output, are let go of. Each active output keeps its layer or gets a
    /// new one, as in [`CosmicBgView::rebuilt`]. The wallpaper for all
    /// outputs comes last, and what it shows is written down. The graphics
    /// device is opened if a shader is configured and it is not open yet.
    /// Then every layer that has a size is set going again: see [`kick`].
    pub open spec fn apply_backgrounds(self) -> (CosmicBgView, Seq<Action>) {
        let made = self.rebuilt(self.active_outputs.len() as int);
        let wallpapers = made.named.push(
            WallpaperView {
                layers: made.shared,
                ..WallpaperView::fresh(self.config.default_background)
            },
        );
        let gpu_renderer = self.gpu_renderer || self.config.uses_shader();
        (
            CosmicBgView { wallpapers, next_layer: made.next_layer, gpu_renderer, ..self },
            destroy_actions(self.leftovers(self.wallpapers.len() as int)) + made.actions + seq![
                Action::SaveState { wallpaper: made.named.len() as usize },
            ] + (if gpu_renderer && !self.gpu_renderer {
                seq![Action::InitRenderer]
            } else {
                Seq::empty()
            }) + kicks(wallpapers, wallpapers.len() as int),
        )
    }

    /// The store changed under the keys `keys`.
    ///
    /// The configuration takes the changes in, in order: see
    /// [`key_applied`]. If one of them asks for it, the wallpapers are made
    /// anew.
    pub open spec fn config_changed(self, keys: Seq<Seq<char>>, store: ContextView) -> (
        CosmicBgView,
        Seq<Action>,
    ) {
        let (config, changed) = keys_applied(self.config, keys, store);
        let reloaded = CosmicBgView { config, ..self };
        if changed {
            reloaded.apply_backgrounds()
        } else {
            (reloaded, Seq::empty())
        }
    }

    /// Paths in the directory of the wallpapers for `source` changed.
    ///
    /// Paths that came up, by being made or renamed into the directory, go
    /// to the front of the image queue unless it holds them; paths that went
    /// away leave it.
    pub open spec fn source_changed(
        self,
        source: Seq<char>,
        kind: WatchKind,
        paths: Seq<Seq<char>>,
    ) -> CosmicBgView {
        CosmicBgView {
            wallpapers: self.wallpapers.map_values(watched(source, kind, paths)),
            ..self
        }
    }

    /// The engine as it starts: nothing active, no layer, the wallpapers of
    /// [`starting_wallpapers`], and the graphics device due to be opened at
    /// once exactly if some entry is drawn by a shader.
    pub open spec fn starting(
        config: ConfigView,
        power: Option<PowerState>,
        fractional_scale_manager: bool,
        compositor_version: u32,
    ) -> CosmicBgView {
        CosmicBgView {
            config,
            wallpapers: starting_wallpapers(config),
            active_outputs: Seq::empty(),
            gpu_renderer: config.uses_shader(),
            power,
            fractional_scale_manager,
            compositor_version,
            next_layer: 0,
            exit: false,
        }
    }
}

/// The keys of a change, as text.
pub open spec fn keys_view(keys: Seq<String>) -> Seq<Seq<char>> {
    keys.map_values(|k: String| k@)
}

/// Executable form of [`carried`] and [`release_actions`].
pub fn carry_layer(old: CosmicBgLayer, from: &Source, to: &Source) -> (r: (
    CosmicBgLayer,
    Vec<Action>,
))
    ensures
        r.0 == carried(old, from@, to@),
        r.1@ == release_actions(old, carried(old, from@, to@)),
{
    let mut moved = old;
    let mut actions: Vec<Action> = Vec::new();
    moved.needs_redraw = true;
    if from.is_shader() || to.is_shader() {
        moved.pool = None;
    }
    if !(to.is_shader() && from.same_as(to)) {
        moved.gpu_state = None;
    }
    if old.gpu_state.is_some() && moved.gpu_state.is_none() {
        actions.push(Action::ReleaseGraphics { layer: old.id });
    }
    if old.pool.is_some() && moved.pool.is_none() {
        actions.push(Action::ReleasePool { layer: old.id });
    }
    assert(actions@ =~= release_actions(old, moved));
    (moved, actions)
}

impl CosmicBg {
    /// The engine as it starts: see [`CosmicBgView::starting`].
    pub fn new(
        config: Config,
        power: Option<PowerState>,
        fractional_scale_manager: bool,
        compositor_version: u32,
    ) -> (r: Self)
        ensures
            r@ == CosmicBgView::starting(
                config@,
                power,
                fractional_scale_manager,
                compositor_version,
            ),
    {
        let mut wallpapers: Vec<Wallpaper> = Vec::new();
        let mut i: usize = 0;
        while i < config.backgrounds.len()
            invariant
                i <= config.backgrounds.len(),
                wallpapers@.len() == i,
                forall|k: int| 0 <= k < i ==> wallpapers@[k]@ == WallpaperView::fresh(config@.backgrounds[k]),
            decreases config.backgrounds.len() - i,
        {
            wallpapers.push(Wallpaper::new(config.backgrounds[i].clone()));
            i = i + 1;
        }
        wallpapers.push(Wallpaper::new(config.default_background.clone()));
        let gpu_renderer = config.uses_shader();
        let r = CosmicBg {
            config,
            wallpapers,
            active_outputs: Vec::new(),
            gpu_renderer,
            power,
            fractional_scale_manager,
            compositor_version,
            next_layer: 0,
            exit: false,
        };
        assert(r@.wallpapers =~= starting_wallpapers(config@));
        assert(r@.active_outputs =~= Seq::empty());
        r
    }

    /// Takes in the latest power state; `None` once the power service is
    /// lost.
    pub fn power_changed(&mut self, power: Option<PowerState>)
        ensures
            final(self)@ == (CosmicBgView { power, ..old(self)@ }),
    {
        self.power = power;
    }

    /// Asks the event loop to end.
    pub fn stop(&mut self)
        ensures
            final(self)@ == (CosmicBgView { exit: true, ..old(self)@ }),
    {
        self.exit = true;
    }

    /// The handles of the layers that do not stay when the wallpapers are
    /// made anew: see [`CosmicBgView::leftovers`].
    fn leftover_layers(&self) -> (ids: Vec<u64>)
        ensures
            ids@ == self@.leftovers(self@.wallpapers.len() as int),
    {
        let mut ids: Vec<u64> = Vec::new();
        let mut i: usize = 0;
        while i < self.wallpapers.len()
            invariant
                i <= self.wallpapers.len(),
                ids@ == self@.leftovers(i as int),
            decreases self.wallpapers.len() - i,
        {
            let ghost before = ids@;
            let mut j: usize = 0;
            while j < self.wallpapers[i].layers.len()
                invariant
                    i < self.wallpapers.len(),
                    j <= self.wallpapers[i as int].layers.len(),
                    ids@ == before + self@.leftover_in(i as int, j as int),
                decreases self.wallpapers[i as int].layers.len() - j,
            {
                let layer = self.wallpapers[i].layers[j];
                let active = self.find_output(layer.output).is_some();
                let first = match self.find_layer(LayerSelector::Output(layer.output)) {
                    Some((a, b)) => a == i && b == j,
                    None => false,
                };
                if !(active && first) {
                    ids.push(layer.id);
                }
                j = j + 1;
                assert(ids@ =~= before + self@.leftover_in(i as int, j as int));
            }
            i = i + 1;
        }
        ids
    }

    /// What sets every layer going: see [`kicks`].
    fn kick_layers(&self) -> (actions: Vec<Action>)
        ensures
            actions@ == kicks(self@.wallpapers, self@.wallpapers.len() as int),
    {
        let mut actions: Vec<Action> = Vec::new();
        let mut i: usize = 0;
        while i < self.wallpapers.len()
            invariant
                i <= self.wallpapers.len(),
                actions@ == kicks(self@.wallpapers, i as int),
            decreases self.wallpapers.len() - i,
        {
            let ghost before = actions@;
            let shader = self.wallpapers[i].is_shader();
            let mut j: usize = 0;
            while j < self.wallpapers[i].layers.len()
                invariant
                    i < self.wallpapers.len(),
                    j <= self.wallpapers[i as int].layers.len(),
                    shader == self@.wallpapers[i as int].is_shader(),
                    actions@ == before + kicks_in(self@.wallpapers[i as int], i, j as int),
                decreases self.wallpapers[i as int].layers.len() - j,
            {
                let layer = self.wallpapers[i].layers[j];
                match layer.size {
                    Some((width, height)) => {
                        if shader {
                            if layer.gpu_state.is_none() {
                                actions.push(Action::BuildCanvas { layer: layer.id, wallpaper: i });
                            }
                        } else {
                            match pool_size(width, height) {
                                Some(bytes) => {
                                    actions.push(Action::EnsurePool { layer: layer.id, bytes });
                                },
                                None => {},
                            }
                        }
                    },
                    None => {},
                }
                j = j + 1;
                assert(actions@ =~= before + kicks_in(self@.wallpapers[i as int], i, j as int));
            }
            i = i + 1;
        }
        actions
    }

    /// Makes the wallpapers anew: see [`CosmicBgView::apply_backgrounds`].
    pub fn apply_backgrounds(&mut self) -> (actions: Vec<Action>)
        ensures
            (final(self)@, actions@) == old(self)@.apply_backgrounds(),
    {
        let ghost before = self@;
        let mut actions: Vec<Action> = Vec::new();
        let leftover = self.leftover_layers();
        push_destroys(&mut actions, &leftover);
        let ghost destroyed = actions@;
        let mut named: Vec<Wallpaper> = Vec::new();
        let mut shared: Vec<CosmicBgLayer> = Vec::new();
        let mut k: usize = 0;
        assert(wallpaper_views(named@) =~= before.rebuilt(0).named);
        assert(actions@ =~= destroyed + before.rebuilt(0).actions);
        while k < self.active_outputs.len()
            invariant
                k <= self.active_outputs.len(),
                self@ == (CosmicBgView { next_layer: self@.next_layer, ..before }),
                wallpaper_views(named@) == before.rebuilt(k as int).named,
                shared@ == before.rebuilt(k as int).shared,
                actions@ == destroyed + before.rebuilt(k as int).actions,
                self.next_layer == before.rebuilt(k as int).next_layer,
            decreases self.active_outputs.len() - k,
        {
            let ghost earlier = before.rebuilt(k as int);
            let found = match &self.active_outputs[k].info.name {
                Some(name) => find_entry(&self.config.backgrounds, name.as_str()),
                None => {
                    proof {
                        reveal_strlit("");
                    }
                    assert(""@ =~= Seq::<char>::empty());
                    find_entry(&self.config.backgrounds, "")
                },
            };
            let ghost entry_at = match found {
                Some(b) => Some(b as int),
                None => None,
            };
            let placing: Option<(CosmicBgLayer, Vec<Action>, u64)> = match self.find_layer(
                LayerSelector::Output(self.active_outputs[k].id),
            ) {
                Some((i, j)) => {
                    let target = match found {
                        Some(b) => &self.config.backgrounds[b].source,
                        None => &self.config.default_background.source,
                    };
                    let (moved, releases) = carry_layer(
                        self.wallpapers[i].layers[j],
                        &self.wallpapers[i].entry.source,
                        target,
                    );
                    Some((moved, releases, self.next_layer))
                },
                None => {
                    if self.next_layer < u64::MAX {
                        let layer = self.new_layer(
                            self.next_layer,
                            self.active_outputs[k].id,
                            &self.active_outputs[k].info,
                        );
                        let mut creation: Vec<Action> = Vec::new();
                        creation.push(
                            Action::CreateLayer {
                                layer: self.next_layer,
                                output: self.active_outputs[k].id,
                                fractional_scale: self.fractional_scale_manager,
                            },
                        );
                        Some((layer, creation, self.next_layer + 1))
                    } else {
                        None
                    }
                },
            };
            match placing {
                Some((layer, mut asked, next_layer)) => {
                    let ghost asked_for = asked@;
                    assert(before.rebuilt(k + 1) == before.placed(
                        earlier,
                        layer,
                        asked_for,
                        entry_at,
                        next_layer,
                    ));
                    actions.append(&mut asked);
                    match found {
                        Some(b) => {
                            let mut wallpaper = Wallpaper::new(self.config.backgrounds[b].clone());
                            wallpaper.layers.push(layer);
                            assert(wallpaper@.layers =~= seq![layer]);
                            actions.push(Action::SaveState { wallpaper: named.len() });
                            named.push(wallpaper);
                            assert(wallpaper_views(named@) =~= before.rebuilt(k + 1).named);
                            assert(actions@ =~= destroyed + before.rebuilt(k + 1).actions);
                        },
                        None => {
                            shared.push(layer);
                            assert(actions@ =~= destroyed + before.rebuilt(k + 1).actions);
                        },
                    }
                    self.next_layer = next_layer;
                },
                None => {},
            }
            k = k + 1;
        }
        let ghost made = before.rebuilt(before.active_outputs.len() as int);
        let mut all = Wallpaper::new(self.config.default_background.clone());
        all.layers = shared;
        actions.push(Action::SaveState { wallpaper: named.len() });
        named.push(all);
        self.wallpapers = named;
        assert(self@.wallpapers =~= before.apply_backgrounds().0.wallpapers);
        if !self.gpu_renderer && self.config.uses_shader() {
            actions.push(Action::InitRenderer);
            self.gpu_renderer = true;
        }
        let mut kicked = self.kick_layers();
        actions.append(&mut kicked);
        assert(actions@ =~= before.apply_backgrounds().1);
        actions
    }

    /// Takes in a change of the store under `key`: see [`key_applied`].
    /// Returns whether the wallpapers have to be made anew.
    pub fn apply_key(&mut self, key: &str, store: &Context) -> (changed: bool)
        ensures
            (final(self)@.config, changed) == key_applied(old(self)@.config, key@, store@),
            final(self)@ == (CosmicBgView { config: final(self)@.config, ..old(self)@ }),
    {
        if same_text(key, BACKGROUNDS) {
            self.config.backgrounds = store.backgrounds();
            true
        } else if same_text(key, DEFAULT_BACKGROUND) {
            let entry = store.default_background();
            if !self.config.default_background.same_as(&entry) {
                self.config.default_background = entry;
                true
            } else {
                false
            }
        } else if same_text(key, SAME_ON_ALL) {
            self.config.same_on_all = store.same_on_all();
            if self.config.same_on_all {
                self.config.backgrounds = Vec::new();
                assert(entry_views(self.config.backgrounds@) =~= Seq::empty());
            } else {
                self.config.backgrounds = store.backgrounds();
            }
            true
        } else if power_saving_key(key) {
            self.config.power_saving = store.power_saving_config();
            false
        } else {
            let name = match strip_prefix(key, OUTPUT_PREFIX) {
                Some(name) => name,
                None => {
                    return false;
                },
            };
            assert(OUTPUT_PREFIX@.is_prefix_of(key@) && name@ =~= key@.skip(
                OUTPUT_PREFIX@.len() as int,
            ));
            let entry = match store.entry(name) {
                Ok(entry) => entry,
                Err(_) => {
                    return false;
                },
            };
            match find_entry(&self.config.backgrounds, name) {
                Some(b) => {
                    let ghost earlier = entry_views(self.config.backgrounds@);
                    self.config.backgrounds[b] = entry;
                    assert(entry_views(self.config.backgrounds@) =~= earlier.update(
                        b as int,
                        entry@,
                    ));
                    true
                },
                None => false,
            }
        }
    }

    /// Handles a change of the store under `keys`: see
    /// [`CosmicBgView::config_changed`].
    pub fn config_changed(&mut self, keys: &Vec<String>, store: &Context) -> (actions: Vec<Action>)
        ensures
            (final(self)@, actions@) == old(self)@.config_changed(keys_view(keys@), store@),
    {
        let ghost before = self@;
        let ghost all_keys = keys_view(keys@);
        let mut changed = false;
        let mut i: usize = 0;
        assert(all_keys.take(0) =~= Seq::empty());
        while i < keys.len()
            invariant
                i <= keys.len(),
                all_keys == keys_view(keys@),
                self@ == (CosmicBgView { config: self@.config, ..before }),
                (self@.config, changed) == keys_applied(before.config, all_keys.take(i as int), store@),
            decreases keys.len() - i,
        {
            proof {
                assert(all_keys.take(i + 1).drop_last() =~= all_keys.take(i as int));
                assert(all_keys.take(i + 1).last() == keys@[i as int]@);
            }
            let changes = self.apply_key(keys[i].as_str(), store);
            changed = changed || changes;
            i = i + 1;
        }
        assert(all_keys.take(i as int) =~= all_keys);
        if changed {
            self.apply_backgrounds()
        } else {
            Vec::new()
        }
    }

    /// Handles a change of paths in a watched directory: see
    /// [`CosmicBgView::source_changed`].
    pub fn source_changed(&mut self, source: &str, kind: WatchKind, paths: &Vec<String>)
        ensures
            final(self)@ == old(self)@.source_changed(source@, kind, paths_view(paths@)),
    {
        let ghost before = self@;
        let ghost effect = watched(source@, kind, paths_view(paths@));
        let mut i: usize = 0;
        while i < self.wallpapers.len()
            invariant
                i <= self.wallpapers.len(),
                self.wallpapers@.len() == before.wallpapers.len(),
                effect == watched(source@, kind, paths_view(paths@)),
                self@ == (CosmicBgView { wallpapers: self@.wallpapers, ..before }),
                forall|k: int| 0 <= k < i ==> self@.wallpapers[k] == effect(before.wallpapers[k]),
                forall|k: int|
                    i <= k < before.wallpapers.len() ==> self@.wallpapers[k] == before.wallpapers[k],
            decreases self.wallpapers.len() - i,
        {
            let ghost earlier = self@.wallpapers;
            if same_text(self.wallpapers[i].entry.output.as_str(), source) {
                match kind {
                    WatchKind::Created => {
                        self.wallpapers[i].paths_added(paths);
                    },
                    WatchKind::RenamedInto => {
                        self.wallpapers[i].paths_added(paths);
                    },
                    WatchKind::RemovedRenamedAway => {
                        self.wallpapers[i].paths_removed(paths);
                    },
                    WatchKind::Modified => {},
                }
            }
            assert forall|k: int| 0 <= k <= i implies self@.wallpapers[k] == effect(
                before.wallpapers[k],
            ) by {
                if k < i {
                    assert(earlier[k] == effect(before.wallpapers[k]));
                    assert(self@.wallpapers[k] == earlier[k]);
                }
            }
            assert forall|k: int| i < k < before.wallpapers.len() implies self@.wallpapers[k]
                == before.wallpapers[k] by {
                assert(self@.wallpapers[k] == earlier[k]);
            }
            i = i + 1;
        }
        assert(self@.wallpapers =~= before.wallpapers.map_values(effect));
    }
}

} // verus!
