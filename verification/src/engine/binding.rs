//! Counting the layers on an output.

use vstd::prelude::*;

use crate::engine::outputs::{
    lemma_output_position, other_than, output_position, stripped,
};
use crate::engine::{ActiveOutputView, CosmicBgView};
use crate::layer::CosmicBgLayer;
use crate::wallpaper::{
    first_picked, lemma_first_picked, passed, picked, LayerSelector, WallpaperView,
};

verus! {

/// How many of `layers` are on `output`.
pub open spec fn shown_count(layers: Seq<CosmicBgLayer>, output: u64) -> nat {
    layers.filter(picked(LayerSelector::Output(output))).len()
}

/// How many layers of the first `limit` wallpapers are on `output`.
pub open spec fn bound_count(wallpapers: Seq<WallpaperView>, output: u64, limit: int) -> nat
    decreases limit,
{
    if limit <= 0 {
        0
    } else if limit <= wallpapers.len() {
        bound_count(wallpapers, output, limit - 1) + shown_count(
            wallpapers[limit - 1].layers,
            output,
        )
    } else {
        bound_count(wallpapers, output, limit - 1)
    }
}

/// The outputs with the handle `output`.
pub open spec fn with_handle(output: u64) -> spec_fn(ActiveOutputView) -> bool {
    |o: ActiveOutputView| o.id == output
}

/// How often `output` is among `outputs`.
pub open spec fn occurrences(outputs: Seq<ActiveOutputView>, output: u64) -> nat {
    outputs.filter(with_handle(output)).len()
}

/// Two lists of wallpapers of which each layer is on the same output as the
/// layer at its place in the other list.
pub open spec fn same_outputs(a: Seq<WallpaperView>, b: Seq<WallpaperView>) -> bool {
    &&& a.len() == b.len()
    &&& forall|k: int| 0 <= k < a.len() ==> (#[trigger] a[k]).layers.len() == b[k].layers.len()
    &&& forall|k: int, j: int|
        0 <= k < a.len() && 0 <= j < a[k].layers.len() ==> (#[trigger] a[k].layers[j]).output
            == b[k].layers[j].output
}

impl CosmicBgView {
    /// How many layers are on `output`.
    pub open spec fn layers_on(self, output: u64) -> nat {
        bound_count(self.wallpapers, output, self.wallpapers.len() as int)
    }

    /// Whether `output` is active.
    pub open spec fn is_active(self, output: u64) -> bool {
        occurrences(self.active_outputs, output) > 0
    }
}

/// One layer more: it counts for its own output.
pub proof fn lemma_count_push(layers: Seq<CosmicBgLayer>, layer: CosmicBgLayer, output: u64)
    ensures
        shown_count(layers.push(layer), output) == shown_count(layers, output) + if layer.output
            == output {
            1nat
        } else {
            0nat
        },
        shown_count(Seq::empty(), output) == 0,
{
    reveal(Seq::filter);
    assert(layers.push(layer).drop_last() =~= layers);
}

/// Layers on the same outputs count the same.
pub proof fn lemma_count_by_outputs(a: Seq<CosmicBgLayer>, b: Seq<CosmicBgLayer>, output: u64)
    requires
        a.len() == b.len(),
        forall|j: int| 0 <= j < a.len() ==> (#[trigger] a[j]).output == b[j].output,
    ensures
        shown_count(a, output) == shown_count(b, output),
    decreases a.len(),
{
    reveal(Seq::filter);
    if a.len() > 0 {
        assert(a.last().output == b.last().output);
        assert forall|j: int| 0 <= j < a.drop_last().len() implies (#[trigger] a.drop_last()[j]).output
            == b.drop_last()[j].output by {
            assert(a[j].output == b[j].output);
        }
        lemma_count_by_outputs(a.drop_last(), b.drop_last(), output);
    }
}

/// Without the layers on `gone`, none is left on `gone`, and as many as
/// before on any other output.
pub proof fn lemma_count_stripped(layers: Seq<CosmicBgLayer>, gone: u64, output: u64)
    ensures
        shown_count(layers.filter(passed(LayerSelector::Output(gone))), output) == if output
            == gone {
            0nat
        } else {
            shown_count(layers, output)
        },
    decreases layers.len(),
{
    reveal(Seq::filter);
    if layers.len() > 0 {
        let earlier = layers.drop_last();
        lemma_count_stripped(earlier, gone, output);
        lemma_count_push(
            earlier.filter(passed(LayerSelector::Output(gone))),
            layers.last(),
            output,
        );
    }
}

/// No layer counts for an output exactly if no layer is on it.
pub proof fn lemma_count_zero(layers: Seq<CosmicBgLayer>, output: u64)
    ensures
        (shown_count(layers, output) == 0) == (first_picked(
            layers,
            LayerSelector::Output(output),
            layers.len() as int,
        ) is None),
    decreases layers.len(),
{
    reveal(Seq::filter);
    let selector = LayerSelector::Output(output);
    lemma_first_picked(layers, selector, layers.len() as int);
    if layers.len() > 0 {
        let earlier = layers.drop_last();
        lemma_count_zero(earlier, output);
        lemma_first_picked(earlier, selector, earlier.len() as int);
        if first_picked(earlier, selector, earlier.len() as int) is Some {
            let i = first_picked(earlier, selector, earlier.len() as int)->Some_0;
            assert(selector.picks(layers[i]));
        } else {
            assert forall|k: int| 0 <= k < earlier.len() implies !selector.picks(
                #[trigger] layers[k],
            ) by {
                assert(!selector.picks(earlier[k]));
            }
        }
    }
}

/// Wallpapers whose layers count the same, place by place, count the same.
pub proof fn lemma_bound_by_counts(
    a: Seq<WallpaperView>,
    b: Seq<WallpaperView>,
    output: u64,
    limit: int,
)
    requires
        limit <= a.len(),
        limit <= b.len(),
        forall|k: int|
            0 <= k < limit ==> shown_count((#[trigger] a[k]).layers, output) == shown_count(
                b[k].layers,
                output,
            ),
    ensures
        bound_count(a, output, limit) == bound_count(b, output, limit),
    decreases limit,
{
    if limit > 0 {
        lemma_bound_by_counts(a, b, output, limit - 1);
        assert(shown_count(a[limit - 1].layers, output) == shown_count(
            b[limit - 1].layers,
            output,
        ));
    }
}

/// Wallpapers with layers on the same outputs count the same.
pub proof fn lemma_bound_same_outputs(a: Seq<WallpaperView>, b: Seq<WallpaperView>, output: u64)
    requires
        same_outputs(a, b),
    ensures
        bound_count(a, output, a.len() as int) == bound_count(b, output, b.len() as int),
{
    assert forall|k: int| 0 <= k < a.len() implies shown_count((#[trigger] a[k]).layers, output)
        == shown_count(b[k].layers, output) by {
        assert(a[k].layers.len() == b[k].layers.len());
        assert forall|j: int| 0 <= j < a[k].layers.len() implies (#[trigger] a[k].layers[j]).output
            == b[k].layers[j].output by {}
        lemma_count_by_outputs(a[k].layers, b[k].layers, output);
    }
    lemma_bound_by_counts(a, b, output, a.len() as int);
}

/// One wallpaper more: its layers count on top.
pub proof fn lemma_bound_push(wallpapers: Seq<WallpaperView>, wallpaper: WallpaperView, output: u64)
    ensures
        bound_count(wallpapers.push(wallpaper), output, wallpapers.len() as int + 1) == bound_count(
            wallpapers,
            output,
            wallpapers.len() as int,
        ) + shown_count(wallpaper.layers, output),
        bound_count(Seq::empty(), output, 0) == 0,
{
    let pushed = wallpapers.push(wallpaper);
    assert forall|k: int| 0 <= k < wallpapers.len() implies shown_count(
        (#[trigger] pushed[k]).layers,
        output,
    ) == shown_count(wallpapers[k].layers, output) by {}
    lemma_bound_by_counts(pushed, wallpapers, output, wallpapers.len() as int);
}

/// One wallpaper replaced: its layers count in place of the old ones.
pub proof fn lemma_bound_update(
    wallpapers: Seq<WallpaperView>,
    i: int,
    wallpaper: WallpaperView,
    output: u64,
    limit: int,
)
    requires
        0 <= i < wallpapers.len(),
        limit <= wallpapers.len(),
    ensures
        bound_count(wallpapers.update(i, wallpaper), output, limit) == bound_count(
            wallpapers,
            output,
            limit,
        ) + if i < limit {
            shown_count(wallpaper.layers, output) - shown_count(wallpapers[i].layers, output)
        } else {
            0
        },
    decreases limit,
{
    if limit > 0 {
        lemma_bound_update(wallpapers, i, wallpaper, output, limit - 1);
    }
}

/// Without the layers on `gone`, none is left on `gone`, and as many as
/// before on any other output.
pub proof fn lemma_bound_stripped(wallpapers: Seq<WallpaperView>, gone: u64, output: u64, limit: int)
    requires
        limit <= wallpapers.len(),
    ensures
        bound_count(
            wallpapers.map_values(stripped(LayerSelector::Output(gone))),
            output,
            limit,
        ) == if output == gone {
            0nat
        } else {
            bound_count(wallpapers, output, limit)
        },
    decreases limit,
{
    if limit > 0 {
        lemma_bound_stripped(wallpapers, gone, output, limit - 1);
        lemma_count_stripped(wallpapers[limit - 1].layers, gone, output);
    }
}

/// Where no layer is on an output, no wallpaper is shown on it.
pub proof fn lemma_bound_zero(wallpapers: Seq<WallpaperView>, output: u64, limit: int)
    requires
        limit <= wallpapers.len(),
        bound_count(wallpapers, output, limit) == 0,
    ensures
        forall|k: int| 0 <= k < limit ==> !(#[trigger] wallpapers[k]).shown_on(output),
    decreases limit,
{
    if limit > 0 {
        lemma_bound_zero(wallpapers, output, limit - 1);
        lemma_count_zero(wallpapers[limit - 1].layers, output);
    }
}

/// One output more: it counts for its own handle.
pub proof fn lemma_occurrences_push(outputs: Seq<ActiveOutputView>, added: ActiveOutputView, output: u64)
    ensures
        occurrences(outputs.push(added), output) == occurrences(outputs, output) + if added.id
            == output {
            1nat
        } else {
            0nat
        },
        occurrences(Seq::empty(), output) == 0,
{
    reveal(Seq::filter);
    assert(outputs.push(added).drop_last() =~= outputs);
}

/// Outputs with the same handles occur as often.
pub proof fn lemma_occurrences_by_handles(
    a: Seq<ActiveOutputView>,
    b: Seq<ActiveOutputView>,
    output: u64,
)
    requires
        a.len() == b.len(),
        forall|k: int| 0 <= k < a.len() ==> (#[trigger] a[k]).id == b[k].id,
    ensures
        occurrences(a, output) == occurrences(b, output),
    decreases a.len(),
{
    reveal(Seq::filter);
    if a.len() > 0 {
        assert(a.last().id == b.last().id);
        assert forall|k: int| 0 <= k < a.drop_last().len() implies (#[trigger] a.drop_last()[k]).id
            == b.drop_last()[k].id by {
            assert(a[k].id == b[k].id);
        }
        lemma_occurrences_by_handles(a.drop_last(), b.drop_last(), output);
    }
}

/// Without `gone`, `gone` does not occur, and any other output as often as
/// before.
pub proof fn lemma_occurrences_without(outputs: Seq<ActiveOutputView>, gone: u64, output: u64)
    ensures
        occurrences(outputs.filter(other_than(gone)), output) == if output == gone {
            0nat
        } else {
            occurrences(outputs, output)
        },
    decreases outputs.len(),
{
    reveal(Seq::filter);
    if outputs.len() > 0 {
        let earlier = outputs.drop_last();
        lemma_occurrences_without(earlier, gone, output);
        lemma_occurrences_push(earlier.filter(other_than(gone)), outputs.last(), output);
    }
}

/// An output occurs exactly if it has a position.
pub proof fn lemma_occurs(outputs: Seq<ActiveOutputView>, output: u64)
    ensures
        (occurrences(outputs, output) > 0) == (output_position(
            outputs,
            output,
            outputs.len() as int,
        ) is Some),
    decreases outputs.len(),
{
    reveal(Seq::filter);
    lemma_output_position(outputs, output, outputs.len() as int);
    if outputs.len() > 0 {
        let earlier = outputs.drop_last();
        lemma_occurs(earlier, output);
        lemma_output_position(earlier, output, earlier.len() as int);
        if output_position(earlier, output, earlier.len() as int) is Some {
            let k = output_position(earlier, output, earlier.len() as int)->Some_0;
            assert(outputs[k].id == output);
        } else {
            assert forall|k: int| 0 <= k < earlier.len() implies (#[trigger] outputs[k]).id
                != output by {
                assert(earlier[k].id != output);
            }
        }
    }
}

} // verus!
