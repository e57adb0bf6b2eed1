//! What is written down of what the outputs show, so that it can be shown
//! again at the next start.

use vstd::prelude::*;

use crate::config::{Source, SourceView};
use crate::sequences::{lemma_filter_next, lemma_filter_start};
use crate::text::same_text;
use crate::wallpaper::paths_view;

verus! {

/// What was written down: the names of outputs, each with what it showed
/// last.
pub type Shown = Seq<(Seq<char>, SourceView)>;

/// A list of names and sources, as it is written down.
pub open spec fn shown_view(pairs: Seq<(String, Source)>) -> Shown {
    pairs.map_values(|pair: (String, Source)| (pair.0@, pair.1@))
}

/// The pairs that are not for the output `name`.
pub open spec fn not_for(name: Seq<char>) -> spec_fn((Seq<char>, SourceView)) -> bool {
    |pair: (Seq<char>, SourceView)| pair.0 != name
}

/// What is written down once the output `name` is forgotten: the pairs of
/// every other output, in their order.
pub open spec fn forgotten(pairs: Shown, name: Seq<char>) -> Shown {
    pairs.filter(not_for(name))
}

/// What is written down once the outputs `names` show `source`: for each
/// name in turn, what was there for it is dropped, and the name with
/// `source` is put behind the rest.
pub open spec fn recorded(pairs: Shown, names: Seq<Seq<char>>, source: SourceView) -> Shown
    decreases names.len(),
{
    if names.len() == 0 {
        pairs
    } else {
        forgotten(recorded(pairs, names.drop_last(), source), names.last()).push(
            (names.last(), source),
        )
    }
}

/// Executable form of [`forgotten`].
pub fn forget_output(pairs: &Vec<(String, Source)>, name: &str) -> (r: Vec<(String, Source)>)
    ensures
        shown_view(r@) == forgotten(shown_view(pairs@), name@),
{
    let ghost all = shown_view(pairs@);
    let mut kept: Vec<(String, Source)> = Vec::new();
    let mut i: usize = 0;
    proof {
        lemma_filter_start(all, not_for(name@));
    }
    assert(shown_view(kept@) =~= all.take(0).filter(not_for(name@)));
    while i < pairs.len()
        invariant
            i <= pairs.len(),
            all == shown_view(pairs@),
            shown_view(kept@) == all.take(i as int).filter(not_for(name@)),
        decreases pairs.len() - i,
    {
        proof {
            lemma_filter_next(all, i as int, not_for(name@));
        }
        if !same_text(pairs[i].0.as_str(), name) {
            let ghost before = shown_view(kept@);
            kept.push((pairs[i].0.clone(), pairs[i].1.clone()));
            assert(shown_view(kept@) =~= before.push(all[i as int]));
        }
        i = i + 1;
    }
    assert(all.take(i as int) =~= all);
    kept
}

/// Executable form of [`recorded`].
pub fn record_shown(pairs: &Vec<(String, Source)>, names: &Vec<String>, source: &Source) -> (r: Vec<
    (String, Source),
>)
    ensures
        shown_view(r@) == recorded(shown_view(pairs@), paths_view(names@), source@),
{
    let ghost all = paths_view(names@);
    let mut shown = copy_shown(pairs);
    let mut i: usize = 0;
    assert(all.take(0) =~= Seq::empty());
    while i < names.len()
        invariant
            i <= names.len(),
            all == paths_view(names@),
            shown_view(shown@) == recorded(shown_view(pairs@), all.take(i as int), source@),
        decreases names.len() - i,
    {
        proof {
            assert(all.take(i + 1).drop_last() =~= all.take(i as int));
            assert(all.take(i + 1).last() == names@[i as int]@);
        }
        let mut next = forget_output(&shown, names[i].as_str());
        let ghost before = shown_view(next@);
        next.push((names[i].clone(), source.clone()));
        assert(shown_view(next@) =~= before.push((names@[i as int]@, source@)));
        shown = next;
        i = i + 1;
    }
    assert(all.take(i as int) =~= all);
    shown
}

/// A copy of what is written down.
fn copy_shown(pairs: &Vec<(String, Source)>) -> (r: Vec<(String, Source)>)
    ensures
        shown_view(r@) == shown_view(pairs@),
{
    let mut copy: Vec<(String, Source)> = Vec::new();
    let mut i: usize = 0;
    while i < pairs.len()
        invariant
            i <= pairs.len(),
            copy@.len() == i,
            forall|k: int| 0 <= k < i ==> shown_view(copy@)[k] == shown_view(pairs@)[k],
        decreases pairs.len() - i,
    {
        copy.push((pairs[i].0.clone(), pairs[i].1.clone()));
        i = i + 1;
    }
    assert(shown_view(copy@) =~= shown_view(pairs@));
    copy
}

} // verus!
