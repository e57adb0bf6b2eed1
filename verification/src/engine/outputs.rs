//! Outputs that come, change and go, and layers that the compositor closes.

use vstd::prelude::*;

use crate::config::selects;
use crate::engine::{
    output_views, Action, ActiveOutput, ActiveOutputView, CosmicBg, CosmicBgView, OutputInfo,
    OutputInfoView,
};
use crate::layer::{scale_from_factor, whole_scale, CosmicBgLayer};
use crate::sequences::{lemma_filter_next, lemma_filter_start};
use crate::wallpaper::{
    layer_ids, passed, paths_view, picked, LayerSelector, WallpaperView,
};

verus! {

/// A wallpaper without the layers that `selector` picks.
pub open spec fn stripped(selector: LayerSelector) -> spec_fn(WallpaperView) -> WallpaperView {
    |w: WallpaperView| WallpaperView { layers: w.layers.filter(passed(selector)), ..w }
}

/// The handles of the layers that `selector` picks in the first `limit`
/// wallpapers, in order.
pub open spec fn dropped_layers(wallpapers: Seq<WallpaperView>, selector: LayerSelector, limit: int) -> Seq<
    u64,
>
    decreases limit,
{
    if limit <= 0 {
        Seq::empty()
    } else if limit <= wallpapers.len() {
        dropped_layers(wallpapers, selector, limit - 1) + layer_ids(
            wallpapers[limit - 1].layers.filter(picked(selector)),
        )
    } else {
        dropped_layers(wallpapers, selector, limit - 1)
    }
}

/// Letting go of each of the layers `ids`, in order.
pub open spec fn destroy_actions(ids: Seq<u64>) -> Seq<Action> {
    ids.map_values(|layer: u64| Action::DestroyLayer { layer })
}

/// The outputs other than `output`.
pub open spec fn other_than(output: u64) -> spec_fn(ActiveOutputView) -> bool {
    |o: ActiveOutputView| o.id != output
}

/// The position of the first of the first `limit` outputs with the handle
/// `output`.
pub open spec fn output_position(outputs: Seq<ActiveOutputView>, output: u64, limit: int) -> Option<
    int,
>
    decreases limit,
{
    if limit <= 0 {
        None
    } else {
        match output_position(outputs, output, limit - 1) {
            Some(i) => Some(i),
            None => if limit <= outputs.len() && outputs[limit - 1].id == output {
                Some(limit - 1)
            } else {
                None
            },
        }
    }
}

/// An output found among the first `limit` outputs is found among more.
pub proof fn lemma_output_position_stays(
    outputs: Seq<ActiveOutputView>,
    output: u64,
    limit: int,
    larger: int,
)
    requires
        limit <= larger <= outputs.len(),
        output_position(outputs, output, limit) is Some,
    ensures
        output_position(outputs, output, larger) == output_position(outputs, output, limit),
    decreases larger - limit,
{
    if limit < larger {
        lemma_output_position_stays(outputs, output, limit, larger - 1);
    }
}

/// What [`output_position`] finds.
pub proof fn lemma_output_position(outputs: Seq<ActiveOutputView>, output: u64, limit: int)
    requires
        limit <= outputs.len(),
    ensures
        match output_position(outputs, output, limit) {
            Some(i) => 0 <= i < limit && outputs[i].id == output && forall|k: int|
                0 <= k < i ==> (#[trigger] outputs[k]).id != output,
            None => forall|k: int| 0 <= k < limit ==> (#[trigger] outputs[k]).id != output,
        },
    decreases limit,
{
    if limit > 0 {
        lemma_output_position(outputs, output, limit - 1);
    }
}

/// The position of the first of the first `limit` wallpapers that is for an
/// output named `name`, by that name or as the wallpaper for all outputs,
/// and is not shown on `output` yet.
pub open spec fn first_free(
    wallpapers: Seq<WallpaperView>,
    name: Option<Seq<char>>,
    output: u64,
    limit: int,
) -> Option<int>
    decreases limit,
{
    if limit <= 0 {
        None
    } else {
        match first_free(wallpapers, name, output, limit - 1) {
            Some(i) => Some(i),
            None => if limit <= wallpapers.len() && selects(
                wallpapers[limit - 1].entry.output,
                name,
            ) && !wallpapers[limit - 1].shown_on(output) {
                Some(limit - 1)
            } else {
                None
            },
        }
    }
}

/// A wallpaper found among the first `limit` wallpapers is found among more.
pub proof fn lemma_first_free_stays(
    wallpapers: Seq<WallpaperView>,
    name: Option<Seq<char>>,
    output: u64,
    limit: int,
    larger: int,
)
    requires
        limit <= larger <= wallpapers.len(),
        first_free(wallpapers, name, output, limit) is Some,
    ensures
        first_free(wallpapers, name, output, larger) == first_free(wallpapers, name, output, limit),
    decreases larger - limit,
{
    if limit < larger {
        lemma_first_free_stays(wallpapers, name, output, limit, larger - 1);
    }
}

/// What [`first_free`] finds.
pub proof fn lemma_first_free(
    wallpapers: Seq<WallpaperView>,
    name: Option<Seq<char>>,
    output: u64,
    limit: int,
)
    requires
        limit <= wallpapers.len(),
    ensures
        match first_free(wallpapers, name, output, limit) {
            Some(i) => 0 <= i < limit && selects(wallpapers[i].entry.output, name)
                && !wallpapers[i].shown_on(output) && forall|k: int|
                0 <= k < i ==> !(selects((#[trigger] wallpapers[k]).entry.output, name)
                    && !wallpapers[k].shown_on(output)),
            None => forall|k: int|
                0 <= k < limit ==> !(selects((#[trigger] wallpapers[k]).entry.output, name)
                    && !wallpapers[k].shown_on(output)),
        },
    decreases limit,
{
    if limit > 0 {
        lemma_first_free(wallpapers, name, output, limit - 1);
    }
}

/// The fractional scale a new layer starts with: none where the compositor
/// will announce one or scales its surfaces itself, else the integer scale
/// of the output in 120ths.
pub open spec fn starting_scale(
    fractional_scale_manager: bool,
    compositor_version: u32,
    scale_factor: u32,
) -> Option<u32> {
    if fractional_scale_manager {
        None
    } else if compositor_version < 6 {
        Some(whole_scale(scale_factor))
    } else {
        None
    }
}

impl CosmicBgView {
    /// The names of the outputs that the first `limit` layers of the
    /// wallpaper at `wallpaper` are on, in order; a layer on an output that
    /// is not active or has no name gives none.
    pub open spec fn shown_names(self, wallpaper: int, limit: int) -> Seq<Seq<char>>
        decreases limit,
    {
        if limit <= 0 {
            Seq::empty()
        } else {
            let earlier = self.shown_names(wallpaper, limit - 1);
            if limit <= self.wallpapers[wallpaper].layers.len() {
                match output_position(
                    self.active_outputs,
                    self.wallpapers[wallpaper].layers[limit - 1].output,
                    self.active_outputs.len() as int,
                ) {
                    Some(k) => match self.active_outputs[k].info.name {
                        Some(name) => earlier.push(name),
                        None => earlier,
                    },
                    None => earlier,
                }
            } else {
                earlier
            }
        }
    }

    /// The layer that is made for an output, with the handle `id`: without
    /// size, pool or graphics state.
    pub open spec fn new_layer(self, id: u64, output: u64, info: OutputInfoView) -> CosmicBgLayer {
        CosmicBgLayer {
            id,
            output,
            scale_factor: info.scale_factor,
            mode: info.mode,
            size: None,
            fractional_scale: starting_scale(
                self.fractional_scale_manager,
                self.compositor_version,
                info.scale_factor,
            ),
            needs_redraw: false,
            pool: None,
            gpu_state: None,
        }
    }

    /// The state without the layers that `selector` picks, and letting go of
    /// them.
    pub open spec fn without_layers(self, selector: LayerSelector) -> (CosmicBgView, Seq<Action>) {
        (
            CosmicBgView { wallpapers: self.wallpapers.map_values(stripped(selector)), ..self },
            destroy_actions(
                dropped_layers(self.wallpapers, selector, self.wallpapers.len() as int),
            ),
        )
    }

    /// The compositor closed a layer's surface: the layer is dropped.
    pub open spec fn closed(self, layer: u64) -> (CosmicBgView, Seq<Action>) {
        self.without_layers(LayerSelector::Id(layer))
    }

    /// An output went away.
    ///
    /// It is no longer active. If it was, what was written down for it is
    /// erased and every layer on it is dropped.
    pub open spec fn output_destroyed(self, output: u64) -> (CosmicBgView, Seq<Action>) {
        let remaining = CosmicBgView {
            active_outputs: self.active_outputs.filter(other_than(output)),
            ..self
        };
        if output_position(self.active_outputs, output, self.active_outputs.len() as int) is Some {
            let (state, destroyed) = remaining.without_layers(LayerSelector::Output(output));
            (state, seq![Action::ForgetOutput { output }] + destroyed)
        } else {
            (remaining, Seq::empty())
        }
    }

    /// An output came.
    ///
    /// It is active from now on. The first wallpaper that is for it, by name
    /// or as the wallpaper for all outputs, and is not shown on it yet gets a
    /// new layer on it, and what the wallpaper shows is written down. If no
    /// wallpaper is for it, or no handle is left, nothing else happens.
    pub open spec fn new_output(self, output: u64, info: OutputInfoView) -> (
        CosmicBgView,
        Seq<Action>,
    ) {
        let listed = CosmicBgView {
            active_outputs: self.active_outputs.push(ActiveOutputView { id: output, info }),
            ..self
        };
        match first_free(self.wallpapers, info.name, output, self.wallpapers.len() as int) {
            Some(i) => if self.next_layer < u64::MAX {
                (
                    CosmicBgView {
                        wallpapers: self.wallpapers.update(
                            i,
                            WallpaperView {
                                layers: self.wallpapers[i].layers.push(
                                    self.new_layer(self.next_layer, output, info),
                                ),
                                ..self.wallpapers[i]
                            },
                        ),
                        next_layer: (self.next_layer + 1) as u64,
                        ..listed
                    },
                    seq![
                        Action::CreateLayer {
                            layer: self.next_layer,
                            output,
                            fractional_scale: self.fractional_scale_manager,
                        },
                        Action::SaveState { wallpaper: i as usize },
                    ],
                )
            } else {
                (listed, Seq::empty())
            },
            None => (listed, Seq::empty()),
        }
    }

    /// The state with what is known of the output `output` replaced.
    pub open spec fn informed(self, output: u64, info: OutputInfoView) -> CosmicBgView {
        match output_position(self.active_outputs, output, self.active_outputs.len() as int) {
            Some(k) => CosmicBgView {
                active_outputs: self.active_outputs.update(
                    k,
                    ActiveOutputView { id: output, info },
                ),
                ..self
            },
            None => self,
        }
    }

    /// Something about an output changed.
    ///
    /// What is known of it is replaced. Where scales come with the output,
    /// that is where the compositor neither offers fractional scales nor
    /// scales surfaces itself, the first layer on the output takes mode and
    /// scale from it and is refreshed.
    pub open spec fn update_output(self, output: u64, info: OutputInfoView) -> (
        CosmicBgView,
        Seq<Action>,
    ) {
        let informed = self.informed(output, info);
        if !self.fractional_scale_manager && self.compositor_version < 6 {
            match informed.find_layer(LayerSelector::Output(output)) {
                Some((i, j)) => informed.refreshed(
                    i,
                    j,
                    CosmicBgLayer {
                        scale_factor: info.scale_factor,
                        mode: info.mode,
                        fractional_scale: Some(whole_scale(info.scale_factor)),
                        ..informed.wallpapers[i].layers[j]
                    },
                ),
                None => (informed, Seq::empty()),
            }
        } else {
            (informed, Seq::empty())
        }
    }
}

/// A copy of what is known of an output.
pub fn clone_info(info: &OutputInfo) -> (r: OutputInfo)
    ensures
        r@ == info@,
{
    OutputInfo {
        name: match &info.name {
            Some(name) => Some(name.clone()),
            None => None,
        },
        scale_factor: info.scale_factor,
        mode: info.mode,
    }
}

/// Puts letting go of each of `ids` behind `actions`.
pub fn push_destroys(actions: &mut Vec<Action>, ids: &Vec<u64>)
    ensures
        final(actions)@ == old(actions)@ + destroy_actions(ids@),
{
    let ghost before = actions@;
    let mut i: usize = 0;
    assert(actions@ =~= before + destroy_actions(ids@.take(0)));
    while i < ids.len()
        invariant
            i <= ids.len(),
            actions@ == before + destroy_actions(ids@.take(i as int)),
        decreases ids.len() - i,
    {
        actions.push(Action::DestroyLayer { layer: ids[i] });
        i = i + 1;
        assert(actions@ =~= before + destroy_actions(ids@.take(i as int)));
    }
    assert(ids@.take(i as int) =~= ids@);
}

impl CosmicBg {
    /// The layer that is made for an output: see [`CosmicBgView::new_layer`].
    pub fn new_layer(&self, id: u64, output: u64, info: &OutputInfo) -> (r: CosmicBgLayer)
        ensures
            r == self@.new_layer(id, output, info@),
    {
        let fractional_scale = if self.fractional_scale_manager {
            None
        } else if self.compositor_version < 6 {
            Some(scale_from_factor(info.scale_factor))
        } else {
            None
        };
        CosmicBgLayer {
            id,
            output,
            scale_factor: info.scale_factor,
            mode: info.mode,
            size: None,
            fractional_scale,
            needs_redraw: false,
            pool: None,
            gpu_state: None,
        }
    }

    /// The names of the outputs that a wallpaper is shown on, as they are
    /// written down with what the wallpaper shows: see
    /// [`CosmicBgView::shown_names`]. No names for a wallpaper that is not
    /// there.
    pub fn output_names(&self, wallpaper: usize) -> (names: Vec<String>)
        ensures
            paths_view(names@) == if wallpaper < self@.wallpapers.len() {
                self@.shown_names(
                    wallpaper as int,
                    self@.wallpapers[wallpaper as int].layers.len() as int,
                )
            } else {
                Seq::empty()
            },
    {
        let mut names: Vec<String> = Vec::new();
        if wallpaper >= self.wallpapers.len() {
            assert(paths_view(names@) =~= Seq::empty());
            return names;
        }
        let mut j: usize = 0;
        assert(paths_view(names@) =~= self@.shown_names(wallpaper as int, 0));
        while j < self.wallpapers[wallpaper].layers.len()
            invariant
                wallpaper < self.wallpapers.len(),
                j <= self.wallpapers[wallpaper as int].layers.len(),
                paths_view(names@) == self@.shown_names(
                    wallpaper as int,
                    j as int,
                ),
            decreases self.wallpapers[wallpaper as int].layers.len() - j,
        {
            let ghost earlier = paths_view(names@);
            match self.find_output(self.wallpapers[wallpaper].layers[j].output) {
                Some(k) => match &self.active_outputs[k].info.name {
                    Some(name) => {
                        names.push(name.clone());
                        assert(paths_view(names@) =~= earlier.push(name@));
                    },
                    None => {},
                },
                None => {},
            }
            j = j + 1;
        }
        names
    }

    /// Drops the layers that `selector` picks: see
    /// [`CosmicBgView::without_layers`].
    pub fn remove_layers(&mut self, selector: LayerSelector) -> (actions: Vec<Action>)
        ensures
            (final(self)@, actions@) == old(self)@.without_layers(selector),
    {
        let ghost before = self@;
        let mut actions: Vec<Action> = Vec::new();
        let mut ids: Vec<u64> = Vec::new();
        let mut i: usize = 0;
        while i < self.wallpapers.len()
            invariant
                i <= self.wallpapers.len(),
                self.wallpapers@.len() == before.wallpapers.len(),
                self@ == (CosmicBgView { wallpapers: self@.wallpapers, ..before }),
                forall|k: int| 0 <= k < i ==> self@.wallpapers[k] == stripped(selector)(before.wallpapers[k]),
                forall|k: int|
                    i <= k < before.wallpapers.len() ==> self@.wallpapers[k] == before.wallpapers[k],
                ids@ == dropped_layers(before.wallpapers, selector, i as int),
            decreases self.wallpapers.len() - i,
        {
            let ghost earlier = self@.wallpapers;
            let mut removed = self.wallpapers[i].remove_layers(selector);
            ids.append(&mut removed);
            assert forall|k: int| 0 <= k <= i implies self@.wallpapers[k] == stripped(selector)(
                before.wallpapers[k],
            ) by {
                if k < i {
                    assert(earlier[k] == stripped(selector)(before.wallpapers[k]));
                    assert(self@.wallpapers[k] == earlier[k]);
                }
            }
            assert forall|k: int| i < k < before.wallpapers.len() implies self@.wallpapers[k]
                == before.wallpapers[k] by {
                assert(self@.wallpapers[k] == earlier[k]);
            }
            i = i + 1;
        }
        push_destroys(&mut actions, &ids);
        assert(self@.wallpapers =~= before.wallpapers.map_values(stripped(selector)));
        assert(actions@ =~= before.without_layers(selector).1);
        actions
    }

    /// Handles the closing of a layer's surface: see [`CosmicBgView::closed`].
    pub fn closed(&mut self, layer: u64) -> (actions: Vec<Action>)
        ensures
            (final(self)@, actions@) == old(self)@.closed(layer),
    {
        self.remove_layers(LayerSelector::Id(layer))
    }

    /// Where the output with the handle `output` is among the active ones.
    pub fn find_output(&self, output: u64) -> (r: Option<usize>)
        ensures
            match r {
                Some(k) => output_position(
                    self@.active_outputs,
                    output,
                    self@.active_outputs.len() as int,
                ) == Some(k as int) && k < self.active_outputs@.len(),
                None => output_position(
                    self@.active_outputs,
                    output,
                    self@.active_outputs.len() as int,
                ) is None,
            },
    {
        let mut k: usize = 0;
        while k < self.active_outputs.len()
            invariant
                k <= self.active_outputs.len(),
                output_position(self@.active_outputs, output, k as int) is None,
            decreases self.active_outputs.len() - k,
        {
            if self.active_outputs[k].id == output {
                proof {
                    lemma_output_position_stays(
                        self@.active_outputs,
                        output,
                        k as int + 1,
                        self@.active_outputs.len() as int,
                    );
                }
                return Some(k);
            }
            k = k + 1;
        }
        None
    }

    /// Handles the going of an output: see
    /// [`CosmicBgView::output_destroyed`].
    pub fn output_destroyed(&mut self, output: u64) -> (actions: Vec<Action>)
        ensures
            (final(self)@, actions@) == old(self)@.output_destroyed(output),
    {
        let ghost before = self@;
        let known = self.find_output(output).is_some();
        let mut remaining: Vec<ActiveOutput> = Vec::new();
        let mut k: usize = 0;
        proof {
            lemma_filter_start(before.active_outputs, other_than(output));
        }
        assert(output_views(remaining@) =~= before.active_outputs.take(0).filter(other_than(output)));
        while k < self.active_outputs.len()
            invariant
                k <= self.active_outputs.len(),
                self@ == before,
                output_views(remaining@) == before.active_outputs.take(k as int).filter(
                    other_than(output),
                ),
            decreases self.active_outputs.len() - k,
        {
            proof {
                lemma_filter_next(before.active_outputs, k as int, other_than(output));
            }
            if self.active_outputs[k].id != output {
                let ghost kept = output_views(remaining@);
                let copy = ActiveOutput {
                    id: self.active_outputs[k].id,
                    info: clone_info(&self.active_outputs[k].info),
                };
                remaining.push(copy);
                assert(output_views(remaining@) =~= kept.push(before.active_outputs[k as int]));
            }
            k = k + 1;
        }
        assert(before.active_outputs.take(k as int) =~= before.active_outputs);
        self.active_outputs = remaining;
        let mut actions: Vec<Action> = Vec::new();
        if known {
            actions.push(Action::ForgetOutput { output });
            let mut destroyed = self.remove_layers(LayerSelector::Output(output));
            actions.append(&mut destroyed);
            assert(actions@ =~= before.output_destroyed(output).1);
        }
        actions
    }

    /// Where the first wallpaper is that is for an output named as in `info`
    /// and not shown on `output` yet.
    pub fn find_free_wallpaper(&self, output: u64, info: &OutputInfo) -> (r: Option<usize>)
        ensures
            match r {
                Some(i) => first_free(
                    self@.wallpapers,
                    info@.name,
                    output,
                    self@.wallpapers.len() as int,
                ) == Some(i as int) && i < self.wallpapers@.len(),
                None => first_free(
                    self@.wallpapers,
                    info@.name,
                    output,
                    self@.wallpapers.len() as int,
                ) is None,
            },
    {
        let mut i: usize = 0;
        while i < self.wallpapers.len()
            invariant
                i <= self.wallpapers.len(),
                first_free(self@.wallpapers, info@.name, output, i as int) is None,
            decreases self.wallpapers.len() - i,
        {
            if self.wallpapers[i].entry.applies_to(&info.name) && self.wallpapers[i].find_layer(
                LayerSelector::Output(output),
            ).is_none() {
                proof {
                    lemma_first_free_stays(
                        self@.wallpapers,
                        info@.name,
                        output,
                        i as int + 1,
                        self@.wallpapers.len() as int,
                    );
                }
                return Some(i);
            }
            i = i + 1;
        }
        None
    }

    /// Handles the coming of an output: see [`CosmicBgView::new_output`].
    pub fn new_output(&mut self, output: u64, info: OutputInfo) -> (actions: Vec<Action>)
        ensures
            (final(self)@, actions@) == old(self)@.new_output(output, info@),
    {
        let ghost before = self@;
        let mut actions: Vec<Action> = Vec::new();
        let place = self.find_free_wallpaper(output, &info);
        let layer = self.new_layer(self.next_layer, output, &info);
        self.active_outputs.push(ActiveOutput { id: output, info });
        assert(self@.active_outputs =~= before.active_outputs.push(
            ActiveOutputView { id: output, info: info@ },
        ));
        match place {
            Some(i) => {
                if self.next_layer < u64::MAX {
                    self.wallpapers[i].layers.push(layer);
                    actions.push(
                        Action::CreateLayer {
                            layer: self.next_layer,
                            output,
                            fractional_scale: self.fractional_scale_manager,
                        },
                    );
                    actions.push(Action::SaveState { wallpaper: i });
                    self.next_layer = self.next_layer + 1;
                    assert(self@.wallpapers =~= before.new_output(output, info@).0.wallpapers);
                    assert(actions@ =~= before.new_output(output, info@).1);
                }
            },
            None => {},
        }
        actions
    }

    /// Handles a change of an output: see [`CosmicBgView::update_output`].
    pub fn update_output(&mut self, output: u64, info: OutputInfo) -> (actions: Vec<Action>)
        ensures
            (final(self)@, actions@) == old(self)@.update_output(output, info@),
    {
        let ghost before = self@;
        let scale_factor = info.scale_factor;
        let mode = info.mode;
        match self.find_output(output) {
            Some(k) => {
                self.active_outputs[k] = ActiveOutput { id: output, info };
                assert(self@.active_outputs =~= before.informed(output, info@).active_outputs);
            },
            None => {},
        }
        assert(self@ == before.informed(output, info@));
        if !self.fractional_scale_manager && self.compositor_version < 6 {
            match self.find_layer(LayerSelector::Output(output)) {
                Some((i, j)) => {
                    let mut changed = self.wallpapers[i].layers[j];
                    changed.scale_factor = scale_factor;
                    changed.mode = mode;
                    changed.fractional_scale = Some(scale_from_factor(scale_factor));
                    self.refresh_layer(i, j, changed)
                },
                None => Vec::new(),
            }
        } else {
            Vec::new()
        }
    }
}

} // verus!
