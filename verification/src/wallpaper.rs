//! A wallpaper: one configured entry and the layers that show it.

use std::collections::VecDeque;
use vstd::prelude::*;

use crate::config::{Entry, EntryView, ShaderSource, Source, SourceView};
use crate::layer::CosmicBgLayer;
use crate::sequences::{lemma_filter_next, lemma_filter_start};
use crate::text::same_text;

verus! {

/// How layers are looked for: by their own handle, by that of their output,
/// or all of them.
#[derive(Debug, Clone, Copy)]
pub enum LayerSelector {
    Id(u64),
    Output(u64),
    Any,
}

impl LayerSelector {
    /// Whether `layer` is one that is looked for.
    pub open spec fn picks(self, layer: CosmicBgLayer) -> bool {
        match self {
            LayerSelector::Id(id) => layer.id == id,
            LayerSelector::Output(output) => layer.output == output,
            LayerSelector::Any => true,
        }
    }

    /// Executable form of [`LayerSelector::picks`].
    pub fn selects(&self, layer: &CosmicBgLayer) -> (r: bool)
        ensures
            r == self.picks(*layer),
    {
        match self {
            LayerSelector::Id(id) => layer.id == *id,
            LayerSelector::Output(output) => layer.output == *output,
            LayerSelector::Any => true,
        }
    }
}

/// The layers that `selector` picks.
pub open spec fn picked(selector: LayerSelector) -> spec_fn(CosmicBgLayer) -> bool {
    |layer: CosmicBgLayer| selector.picks(layer)
}

/// The layers that `selector` passes over.
pub open spec fn passed(selector: LayerSelector) -> spec_fn(CosmicBgLayer) -> bool {
    |layer: CosmicBgLayer| !selector.picks(layer)
}

/// The handles of a list of layers, in order.
pub open spec fn layer_ids(layers: Seq<CosmicBgLayer>) -> Seq<u64> {
    layers.map_values(|layer: CosmicBgLayer| layer.id)
}

/// The position of the first layer that `selector` picks among the first
/// `limit` layers, if there is one.
pub open spec fn first_picked(layers: Seq<CosmicBgLayer>, selector: LayerSelector, limit: int) -> Option<
    int,
>
    decreases limit,
{
    if limit <= 0 {
        None
    } else {
        match first_picked(layers, selector, limit - 1) {
            Some(i) => Some(i),
            None => if limit <= layers.len() && selector.picks(layers[limit - 1]) {
                Some(limit - 1)
            } else {
                None
            },
        }
    }
}

/// What [`first_picked`] finds: the least position below `limit` whose layer
/// `selector` picks.
pub proof fn lemma_first_picked(layers: Seq<CosmicBgLayer>, selector: LayerSelector, limit: int)
    requires
        limit <= layers.len(),
    ensures
        match first_picked(layers, selector, limit) {
            Some(i) => 0 <= i < limit && selector.picks(layers[i]) && forall|k: int|
                0 <= k < i ==> !selector.picks(#[trigger] layers[k]),
            None => forall|k: int| 0 <= k < limit ==> !selector.picks(#[trigger] layers[k]),
        },
    decreases limit,
{
    if limit > 0 {
        lemma_first_picked(layers, selector, limit - 1);
    }
}

/// A layer found below `limit` is found below every larger limit too.
pub proof fn lemma_first_picked_stays(
    layers: Seq<CosmicBgLayer>,
    selector: LayerSelector,
    limit: int,
    larger: int,
)
    requires
        limit <= larger <= layers.len(),
        first_picked(layers, selector, limit) is Some,
    ensures
        first_picked(layers, selector, larger) == first_picked(layers, selector, limit),
    decreases larger - limit,
{
    if limit < larger {
        lemma_first_picked_stays(layers, selector, limit, larger - 1);
    }
}

/// A wallpaper: what is shown, the images that wait to be shown, and the
/// layers it is shown on.
#[derive(Debug)]
pub struct Wallpaper {
    pub entry: Entry,
    /// Candidate images of a directory source, the next one first.
    pub image_queue: VecDeque<String>,
    pub layers: Vec<CosmicBgLayer>,
}

pub struct WallpaperView {
    pub entry: EntryView,
    pub image_queue: Seq<Seq<char>>,
    pub layers: Seq<CosmicBgLayer>,
}

/// A list of paths, as text.
pub open spec fn paths_view(paths: Seq<String>) -> Seq<Seq<char>> {
    paths.map_values(|p: String| p@)
}

impl View for Wallpaper {
    type V = WallpaperView;

    open spec fn view(&self) -> WallpaperView {
        WallpaperView {
            entry: self.entry@,
            image_queue: paths_view(self.image_queue@),
            layers: self.layers@,
        }
    }
}

/// The queue after the paths in `added` came up, one after the other: a path
/// that the queue does not hold yet goes to its front.
pub open spec fn queue_with(queue: Seq<Seq<char>>, added: Seq<Seq<char>>) -> Seq<Seq<char>>
    decreases added.len(),
{
    if added.len() == 0 {
        queue
    } else {
        let earlier = queue_with(queue, added.drop_last());
        if earlier.contains(added.last()) {
            earlier
        } else {
            seq![added.last()] + earlier
        }
    }
}

/// The paths that are not among `gone`.
pub open spec fn not_among(gone: Seq<Seq<char>>) -> spec_fn(Seq<char>) -> bool {
    |path: Seq<char>| !gone.contains(path)
}

/// The queue after the paths in `gone` went away.
pub open spec fn queue_without(queue: Seq<Seq<char>>, gone: Seq<Seq<char>>) -> Seq<Seq<char>> {
    queue.filter(not_among(gone))
}

/// A layer after its wallpaper was drawn: with a pool it needs no redraw any
/// more.
pub open spec fn drawn_layer(layer: CosmicBgLayer) -> CosmicBgLayer {
    if layer.pool is Some {
        CosmicBgLayer { needs_redraw: false, ..layer }
    } else {
        layer
    }
}

impl WallpaperView {
    /// The wallpaper after it was drawn: see [`drawn_layer`].
    pub open spec fn drawn(self) -> WallpaperView {
        WallpaperView {
            layers: self.layers.map_values(|layer: CosmicBgLayer| drawn_layer(layer)),
            ..self
        }
    }

    /// A wallpaper for `entry` that is shown nowhere yet.
    pub open spec fn fresh(entry: EntryView) -> WallpaperView {
        WallpaperView { entry, image_queue: Seq::empty(), layers: Seq::empty() }
    }

    /// Whether the wallpaper is drawn by a fragment program.
    pub open spec fn is_shader(self) -> bool {
        self.entry.source is Shader
    }

    /// Whether one of the layers is on the output `output`.
    pub open spec fn shown_on(self, output: u64) -> bool {
        first_picked(self.layers, LayerSelector::Output(output), self.layers.len() as int) is Some
    }
}

/// Whether `path` is among `paths`.
pub fn holds_path(paths: &Vec<String>, path: &str) -> (r: bool)
    ensures
        r == paths_view(paths@).contains(path@),
{
    let mut i: usize = 0;
    while i < paths.len()
        invariant
            i <= paths.len(),
            forall|k: int| 0 <= k < i ==> paths_view(paths@)[k] != path@,
        decreases paths.len() - i,
    {
        if same_text(paths[i].as_str(), path) {
            assert(paths_view(paths@)[i as int] == path@);
            return true;
        }
        i = i + 1;
    }
    false
}

/// Whether `path` is in the queue `queue`.
pub fn queue_holds(queue: &VecDeque<String>, path: &str) -> (r: bool)
    ensures
        r == paths_view(queue@).contains(path@),
{
    let mut i: usize = 0;
    while i < queue.len()
        invariant
            i <= queue.len(),
            queue.len() == queue@.len(),
            forall|k: int| 0 <= k < i ==> paths_view(queue@)[k] != path@,
        decreases queue.len() - i,
    {
        if same_text(queue[i].as_str(), path) {
            assert(paths_view(queue@)[i as int] == path@);
            return true;
        }
        i = i + 1;
    }
    false
}

impl Wallpaper {
    /// A wallpaper for `entry` that is shown nowhere yet.
    pub fn new(entry: Entry) -> (r: Self)
        ensures
            r@ == WallpaperView::fresh(entry@),
    {
        let r = Wallpaper { entry, image_queue: VecDeque::new(), layers: Vec::new() };
        assert(r@.image_queue =~= Seq::empty());
        r
    }

    /// Whether the wallpaper is drawn by a fragment program.
    pub fn is_shader(&self) -> (r: bool)
        ensures
            r == self@.is_shader(),
    {
        self.entry.source.is_shader()
    }

    /// The shader source of an animated wallpaper.
    pub fn shader_source(&self) -> (r: Option<&ShaderSource>)
        ensures
            match self@.entry.source {
                SourceView::Shader(source) => r is Some && r->Some_0@ == source,
                _ => r is None,
            },
    {
        match &self.entry.source {
            Source::Shader(source) => Some(source),
            _ => None,
        }
    }

    /// The position of the first layer that `selector` picks.
    pub fn find_layer(&self, selector: LayerSelector) -> (r: Option<usize>)
        ensures
            match r {
                Some(i) => first_picked(self@.layers, selector, self@.layers.len() as int) == Some(
                    i as int,
                ) && i < self@.layers.len() && selector.picks(self@.layers[i as int]),
                None => first_picked(self@.layers, selector, self@.layers.len() as int) is None,
            },
    {
        let mut i: usize = 0;
        while i < self.layers.len()
            invariant
                i <= self.layers.len(),
                first_picked(self@.layers, selector, i as int) is None,
            decreases self.layers.len() - i,
        {
            if selector.selects(&self.layers[i]) {
                proof {
                    lemma_first_picked_stays(
                        self@.layers,
                        selector,
                        i as int + 1,
                        self@.layers.len() as int,
                    );
                }
                return Some(i);
            }
            i = i + 1;
        }
        None
    }

    /// Takes the layers that `selector` picks out of the wallpaper and
    /// returns their handles, in order.
    pub fn remove_layers(&mut self, selector: LayerSelector) -> (removed: Vec<u64>)
        ensures
            final(self)@ == (WallpaperView {
                layers: old(self)@.layers.filter(passed(selector)),
                ..old(self)@
            }),
            removed@ == layer_ids(old(self)@.layers.filter(picked(selector))),
    {
        let ghost layers = self.layers@;
        let mut kept: Vec<CosmicBgLayer> = Vec::new();
        let mut removed: Vec<u64> = Vec::new();
        let mut i: usize = 0;
        proof {
            lemma_filter_start(layers, passed(selector));
            lemma_filter_start(layers, picked(selector));
        }
        assert(removed@ =~= layer_ids(layers.take(0).filter(picked(selector))));
        while i < self.layers.len()
            invariant
                i <= self.layers.len(),
                layers == self.layers@,
                kept@ == layers.take(i as int).filter(passed(selector)),
                removed@ == layer_ids(layers.take(i as int).filter(picked(selector))),
            decreases self.layers.len() - i,
        {
            let layer = self.layers[i];
            proof {
                lemma_filter_next(layers, i as int, passed(selector));
                lemma_filter_next(layers, i as int, picked(selector));
            }
            if selector.selects(&layer) {
                removed.push(layer.id);
                assert(removed@ =~= layer_ids(layers.take(i + 1).filter(picked(selector))));
            } else {
                kept.push(layer);
            }
            i = i + 1;
        }
        assert(layers.take(i as int) =~= layers);
        self.layers = kept;
        removed
    }

    /// Takes note of paths that came up in the wallpaper's directory: see
    /// [`queue_with`].
    pub fn paths_added(&mut self, paths: &Vec<String>)
        ensures
            final(self)@ == (WallpaperView {
                image_queue: queue_with(old(self)@.image_queue, paths_view(paths@)),
                ..old(self)@
            }),
    {
        let ghost queue = self@.image_queue;
        let ghost added = paths_view(paths@);
        let mut i: usize = 0;
        assert(added.take(0) =~= Seq::empty());
        while i < paths.len()
            invariant
                i <= paths.len(),
                added == paths_view(paths@),
                self@.image_queue == queue_with(queue, added.take(i as int)),
                self@.entry == old(self)@.entry,
                self@.layers == old(self)@.layers,
            decreases paths.len() - i,
        {
            proof {
                assert(added.take(i + 1).drop_last() =~= added.take(i as int));
                assert(added.take(i + 1).last() == paths@[i as int]@);
            }
            if !queue_holds(&self.image_queue, paths[i].as_str()) {
                let ghost before = self@.image_queue;
                self.image_queue.push_front(paths[i].clone());
                assert(self@.image_queue =~= seq![paths@[i as int]@] + before);
            }
            i = i + 1;
        }
        assert(added.take(i as int) =~= added);
    }

    /// Takes note that the wallpaper was drawn: see [`WallpaperView::drawn`].
    pub fn mark_drawn(&mut self)
        ensures
            final(self)@ == old(self)@.drawn(),
    {
        let ghost layers = self.layers@;
        let mut j: usize = 0;
        while j < self.layers.len()
            invariant
                j <= self.layers.len(),
                self.layers@.len() == layers.len(),
                self@.entry == old(self)@.entry,
                self@.image_queue == old(self)@.image_queue,
                forall|l: int| 0 <= l < j ==> self.layers@[l] == drawn_layer(layers[l]),
                forall|l: int| j <= l < layers.len() ==> self.layers@[l] == layers[l],
            decreases self.layers.len() - j,
        {
            if self.layers[j].pool.is_some() {
                let mut layer = self.layers[j];
                layer.needs_redraw = false;
                self.layers[j] = layer;
            }
            j = j + 1;
        }
        assert(self@.layers =~= old(self)@.drawn().layers);
    }

    /// Takes the next image to show from the queue. An empty queue is first
    /// filled again with the images that are known, in their order.
    pub fn next_image(&mut self, known: &Vec<String>) -> (r: Option<String>)
        ensures
            ({
                let queue = if old(self)@.image_queue.len() == 0 {
                    paths_view(known@)
                } else {
                    old(self)@.image_queue
                };
                if queue.len() == 0 {
                    r is None && final(self)@ == old(self)@
                } else {
                    r is Some && r->Some_0@ == queue[0] && final(self)@ == (WallpaperView {
                        image_queue: queue.skip(1),
                        ..old(self)@
                    })
                }
            }),
    {
        if self.image_queue.len() == 0 {
            let mut i: usize = 0;
            while i < known.len()
                invariant
                    i <= known.len(),
                    self.image_queue@.len() == i,
                    self@.entry == old(self)@.entry,
                    self@.layers == old(self)@.layers,
                    forall|k: int| 0 <= k < i ==> self.image_queue@[k]@ == known@[k]@,
                decreases known.len() - i,
            {
                self.image_queue.push_back(known[i].clone());
                i = i + 1;
            }
            assert(self@.image_queue =~= paths_view(known@));
        }
        let ghost queue = self@.image_queue;
        match self.image_queue.pop_front() {
            Some(next) => {
                assert(self@.image_queue =~= queue.skip(1));
                Some(next)
            },
            None => {
                assert(self@.image_queue =~= old(self)@.image_queue);
                None
            },
        }
    }

    /// Takes note of paths that went away from the wallpaper's directory:
    /// see [`queue_without`].
    pub fn paths_removed(&mut self, paths: &Vec<String>)
        ensures
            final(self)@ == (WallpaperView {
                image_queue: queue_without(old(self)@.image_queue, paths_view(paths@)),
                ..old(self)@
            }),
    {
        let ghost queue = self@.image_queue;
        let ghost gone = paths_view(paths@);
        let mut kept: VecDeque<String> = VecDeque::new();
        let mut i: usize = 0;
        proof {
            lemma_filter_start(queue, not_among(gone));
        }
        assert(paths_view(kept@) =~= queue.take(0).filter(not_among(gone)));
        while i < self.image_queue.len()
            invariant
                i <= self.image_queue.len(),
                queue == paths_view(self.image_queue@),
                queue.len() == self.image_queue@.len(),
                gone == paths_view(paths@),
                paths_view(kept@) == queue.take(i as int).filter(not_among(gone)),
            decreases self.image_queue.len() - i,
        {
            proof {
                lemma_filter_next(queue, i as int, not_among(gone));
            }
            if !holds_path(paths, self.image_queue[i].as_str()) {
                let ghost before = paths_view(kept@);
                kept.push_back(self.image_queue[i].clone());
                assert(paths_view(kept@) =~= before.push(self.image_queue@[i as int]@));
            }
            i = i + 1;
        }
        assert(queue.take(i as int) =~= queue);
        self.image_queue = kept;
    }
}

} // verus!
