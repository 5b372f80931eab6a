use vstd::prelude::*;
use crate::sample_set::SampleSet;

verus! {

/// The collection that a load yields from what the backing file parsed to:
/// the parsed collection, or the empty one when the file was absent,
/// unreadable or malformed (`None`).
pub open spec fn loaded(parsed: Option<Seq<SampleSet>>) -> Seq<SampleSet> {
    match parsed {
        Some(c) => c,
        None => Seq::empty(),
    }
}

/// Whether a record survives the removal of the presets named `name`.
pub open spec fn kept_by(name: Seq<char>) -> spec_fn(SampleSet) -> bool {
    |p: SampleSet| p.name@ != name
}

/// The collection `c` without any record named `name`, order kept.
pub open spec fn without_name(c: Seq<SampleSet>, name: Seq<char>) -> Seq<SampleSet> {
    c.filter(kept_by(name))
}

/// Whether `i` is the position of the first record of `c` named `name`.
pub open spec fn first_named(c: Seq<SampleSet>, name: Seq<char>, i: int) -> bool {
    0 <= i < c.len() && c[i].name@ == name && forall|j: int|
        0 <= j < i ==> (#[trigger] c[j]).name@ != name
}

proof fn lemma_without_name_step(c: Seq<SampleSet>, name: Seq<char>, i: int)
    requires
        0 <= i < c.len(),
    ensures
        without_name(c.subrange(0, i + 1), name) == if c[i].name@ != name {
            without_name(c.subrange(0, i), name).push(c[i])
        } else {
            without_name(c.subrange(0, i), name)
        },
{
    reveal(Seq::filter);
    assert(c.subrange(0, i + 1).drop_last() =~= c.subrange(0, i));
}

/// Lenient load: the collection that the backing file parsed to, or an empty
/// collection when it was missing, unreadable or corrupt.
pub fn read_presets(parsed: Option<Vec<SampleSet>>) -> (r: Vec<SampleSet>)
    ensures
        r@ == loaded(
            match parsed {
                Some(v) => Some(v@),
                None => None,
            },
        ),
{
    match parsed {
        Some(v) => v,
        None => Vec::new(),
    }
}

/// Appends `preset` at the end of the collection.
pub fn add_preset(presets: &mut Vec<SampleSet>, preset: SampleSet)
    ensures
        final(presets)@ == old(presets)@.push(preset),
{
    presets.push(preset);
}

/// Removes every record named `name`; the others keep their order. Nothing
/// changes when no record has that name.
pub fn delete_preset(presets: Vec<SampleSet>, name: &String) -> (r: Vec<SampleSet>)
    ensures
        r@ == without_name(presets@, name@),
{
    let ghost c = presets@;
    let mut rest = presets;
    let mut kept: Vec<SampleSet> = Vec::new();
    let ghost mut i: int = 0;
    while rest.len() > 0
        invariant
            0 <= i <= c.len(),
            rest@ == c.subrange(i, c.len() as int),
            kept@ == without_name(c.subrange(0, i), name@),
        decreases rest.len(),
    {
        let p = rest.remove(0);
        proof {
            lemma_without_name_step(c, name@, i);
            i = i + 1;
        }
        if !p.has_name(name) {
            kept.push(p);
        }
    }
    assert(c.subrange(0, c.len() as int) =~= c);
    kept
}

/// Looks up the first record named `name`; `None` reports that no record has
/// that name.
pub fn find_preset<'a>(presets: &'a Vec<SampleSet>, name: &String) -> (r: Option<&'a SampleSet>)
    ensures
        r is None <==> (forall|j: int| 0 <= j < presets@.len() ==> (#[trigger] presets@[j]).name@ != name@),
        r matches Some(p) ==> exists|i: int| first_named(presets@, name@, i) && *p == presets@[i],
{
    let mut i: usize = 0;
    while i < presets.len()
        invariant
            i <= presets@.len(),
            forall|j: int| 0 <= j < i ==> (#[trigger] presets@[j]).name@ != name@,
        decreases presets@.len() - i,
    {
        if presets[i].has_name(name) {
            assert(first_named(presets@, name@, i as int));
            return Some(&presets[i]);
        }
        i = i + 1;
    }
    None
}

/// Loading is idempotent: loading a collection that a load produced yields
/// that same collection.
pub proof fn lemma_load_idempotent(parsed: Option<Seq<SampleSet>>)
    ensures
        loaded(Some(loaded(parsed))) == loaded(parsed),
{
}

/// A missing or corrupt backing file loads as the empty collection, so adding a
/// record afterwards yields the collection of that record alone.
pub proof fn lemma_add_after_corrupt_load(preset: SampleSet)
    ensures
        loaded(None) == Seq::<SampleSet>::empty(),
        loaded(None).push(preset) == seq![preset],
{
    assert(loaded(None).push(preset) =~= seq![preset]);
}

/// Adding a record keeps every earlier record in place and puts the new one
/// last.
pub proof fn lemma_add_appends(c: Seq<SampleSet>, preset: SampleSet)
    ensures
        c.push(preset).len() == c.len() + 1,
        c.push(preset).subrange(0, c.len() as int) == c,
        c.push(preset).last() == preset,
{
    assert(c.push(preset).subrange(0, c.len() as int) =~= c);
}

/// Removing a name removes every record with that name and nothing else:
/// no record of the result has the name, every other record of `c` is kept,
/// and the result holds nothing that `c` did not.
pub proof fn lemma_remove_exactly_named(c: Seq<SampleSet>, name: Seq<char>)
    ensures
        forall|i: int|
            0 <= i < without_name(c, name).len() ==> (#[trigger] without_name(c, name)[i]).name@
                != name,
        forall|i: int|
            0 <= i < c.len() && (#[trigger] c[i]).name@ != name ==> without_name(c, name).contains(
                c[i],
            ),
        forall|i: int|
            0 <= i < without_name(c, name).len() ==> c.contains(#[trigger] without_name(c, name)[i]),
    decreases c.len(),
{
    broadcast use vstd::seq_lib::group_filter_ensures;

    reveal(Seq::filter);
    let r = without_name(c, name);
    if c.len() > 0 {
        lemma_remove_exactly_named(c.drop_last(), name);
        assert forall|i: int| 0 <= i < r.len() implies c.contains(#[trigger] r[i]) by {
            let r0 = without_name(c.drop_last(), name);
            if i < r0.len() {
                assert(r[i] == r0[i]);
                let k = choose|k: int| 0 <= k < c.drop_last().len() && c.drop_last()[k] == r0[i];
                assert(c[k] == r[i]);
            } else {
                assert(r[i] == c[c.len() - 1]);
            }
        }
    }
}

/// Removing a name that no record has leaves the collection unchanged.
pub proof fn lemma_remove_absent(c: Seq<SampleSet>, name: Seq<char>)
    requires
        forall|i: int| 0 <= i < c.len() ==> (#[trigger] c[i]).name@ != name,
    ensures
        without_name(c, name) == c,
    decreases c.len(),
{
    reveal(Seq::filter);
    if c.len() > 0 {
        lemma_remove_absent(c.drop_last(), name);
        assert(c.drop_last().push(c.last()) =~= c);
    }
}

} // verus!
