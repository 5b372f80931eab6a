use vstd::prelude::*;
use crate::sample_set::string_views;

verus! {

/// One entry met while walking the samples root: whether it is a directory,
/// and its base file name.
pub struct WalkEntry {
    pub is_dir: bool,
    pub file_name: String,
}

impl WalkEntry {
    pub fn new(is_dir: bool, file_name: String) -> (r: WalkEntry)
        ensures
            r.is_dir == is_dir,
            r.file_name == file_name,
    {
        WalkEntry { is_dir, file_name }
    }
}

/// The sample identifier that one step of the walk contributes: the base name
/// of a readable entry that is not a directory. Entries that could not be read
/// (`None`) and directories contribute nothing.
pub open spec fn sample_of(entry: Option<WalkEntry>) -> Seq<Seq<char>> {
    match entry {
        Some(e) => if e.is_dir {
            Seq::empty()
        } else {
            seq![e.file_name@]
        },
        None => Seq::empty(),
    }
}

/// The sample identifiers of a walk, in the order the walk met them.
pub open spec fn sample_names(entries: Seq<Option<WalkEntry>>) -> Seq<Seq<char>>
    decreases entries.len(),
{
    if entries.len() == 0 {
        Seq::empty()
    } else {
        sample_names(entries.drop_last()) + sample_of(entries.last())
    }
}

/// The sample identifiers found by a recursive walk of the samples root, given
/// the entries of that walk in order: the base name of every readable entry
/// that is not a directory. Unreadable entries are skipped.
pub fn get_all_samples(entries: &Vec<Option<WalkEntry>>) -> (r: Vec<String>)
    ensures
        string_views(r@) == sample_names(entries@),
{
    let mut r: Vec<String> = Vec::new();
    let mut i: usize = 0;
    while i < entries.len()
        invariant
            i <= entries@.len(),
            string_views(r@) == sample_names(entries@.subrange(0, i as int)),
        decreases entries@.len() - i,
    {
        assert(entries@.subrange(0, i + 1).drop_last() =~= entries@.subrange(0, i as int));
        match &entries[i] {
            Some(e) => {
                if !e.is_dir {
                    r.push(e.file_name.clone());
                }
            },
            None => {},
        }
        assert(string_views(r@) =~= sample_names(entries@.subrange(0, i + 1)));
        i = i + 1;
    }
    assert(entries@.subrange(0, entries@.len() as int) =~= entries@);
    r
}

/// A walk in which no step contributes a sample, as over an empty or a missing
/// samples root (only directories and unreadable entries), discovers no sample.
pub proof fn lemma_no_files_no_samples(entries: Seq<Option<WalkEntry>>)
    requires
        forall|i: int| 0 <= i < entries.len() ==> (#[trigger] entries[i]) is None || entries[i]->Some_0.is_dir,
    ensures
        sample_names(entries) == Seq::<Seq<char>>::empty(),
    decreases entries.len(),
{
    if entries.len() > 0 {
        lemma_no_files_no_samples(entries.drop_last());
        assert(sample_names(entries) =~= Seq::<Seq<char>>::empty());
    }
}

} // verus!
