use vstd::prelude::*;

verus! {

/// Number of sample slots in every preset.
pub const SLOT_COUNT: usize = 8;

/// A named preset: exactly eight sample slots, each holding the file name of a
/// sample or the empty string when the slot is unset.
#[derive(Debug)]
pub struct SampleSet {
    pub name: String,
    pub samples: [String; 8],
}

/// Mathematical model of a preset: its name and the contents of its slots.
pub struct SampleSetView {
    pub name: Seq<char>,
    pub samples: Seq<Seq<char>>,
}

impl View for SampleSet {
    type V = SampleSetView;

    open spec fn view(&self) -> SampleSetView {
        SampleSetView { name: self.name@, samples: self.samples@.map_values(|s: String| s@) }
    }
}

impl SampleSet {
    /// Builds a preset from a name and its eight slots.
    pub fn new(name: String, samples: [String; 8]) -> (r: SampleSet)
        ensures
            r.name == name,
            r.samples == samples,
    {
        SampleSet { name, samples }
    }

    /// Whether this preset is stored under `name`.
    pub fn has_name(&self, name: &String) -> (r: bool)
        ensures
            r == (self.name@ == name@),
    {
        self.name == *name
    }
}

impl PartialEq for SampleSet {
    fn eq(&self, other: &SampleSet) -> (r: bool) {
        if self.name != other.name {
            return false;
        }
        let mut i: usize = 0;
        while i < SLOT_COUNT
            invariant
                i <= SLOT_COUNT,
                self.samples@.len() == SLOT_COUNT,
                other.samples@.len() == SLOT_COUNT,
                forall|j: int| 0 <= j < i ==> self.samples@[j]@ == other.samples@[j]@,
            decreases SLOT_COUNT - i,
        {
            if self.samples[i] != other.samples[i] {
                assert(self@.samples[i as int] != other@.samples[i as int]);
                return false;
            }
            i = i + 1;
        }
        assert(self@.samples =~= other@.samples);
        true
    }
}

impl vstd::std_specs::cmp::PartialEqSpecImpl for SampleSet {
    open spec fn obeys_eq_spec() -> bool {
        true
    }

    open spec fn eq_spec(&self, other: &SampleSet) -> bool {
        self@ == other@
    }
}

} // verus!

verus! {

/// The contents of each string of `v`.
pub open spec fn string_views(v: Seq<String>) -> Seq<Seq<char>> {
    v.map_values(|s: String| s@)
}

} // verus!
