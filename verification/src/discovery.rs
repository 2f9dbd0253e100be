//! Discovery of source files: of a directory's entries, keep the regular
//! files whose extension matches the source extension ignoring ASCII case,
//! in order, and turn each into a conversion job.

use vstd::prelude::*;

use crate::jobs::{job_for, ConversionJob, JobView};
use crate::paths::{extension_of, source_ext};
use crate::text::{eq_ignore_ascii_case, eq_ignore_case};

verus! {

/// What discovery learns of one directory entry: its name as text, and
/// whether it is a regular file.
pub struct DirEntryInfo {
    pub name: String,
    pub is_file: bool,
}

/// The mathematical value of a `DirEntryInfo`.
pub struct EntryView {
    pub name: Seq<char>,
    pub is_file: bool,
}

impl View for DirEntryInfo {
    type V = EntryView;

    open spec fn view(&self) -> EntryView {
        EntryView { name: self.name@, is_file: self.is_file }
    }
}

/// An entry is selected when it is a regular file whose extension matches
/// the source extension up to ASCII case. Directories are never selected.
pub open spec fn selects(e: EntryView) -> bool {
    &&& e.is_file
    &&& match extension_of(e.name) {
        Some(ext) => eq_ignore_case(ext, source_ext()),
        None => false,
    }
}

/// The names of the selected entries, in the order the entries came.
pub open spec fn selected_names(entries: Seq<EntryView>) -> Seq<Seq<char>>
    decreases entries.len(),
{
    if entries.len() == 0 {
        Seq::empty()
    } else {
        let prefix = selected_names(entries.drop_last());
        if selects(entries.last()) {
            prefix.push(entries.last().name)
        } else {
            prefix
        }
    }
}

/// The jobs discovery produces: one per selected name, in order.
pub open spec fn jobs_of(names: Seq<Seq<char>>) -> Seq<JobView> {
    names.map_values(|n: Seq<char>| job_for(n))
}

/// Turns a directory's entries into the ordered list of conversion jobs:
/// one job per selected entry, in the order the entries came.
pub fn discover_jobs(entries: &Vec<DirEntryInfo>) -> (jobs: Vec<ConversionJob>)
    ensures
        jobs@.map_values(|j: ConversionJob| j@) == jobs_of(
            selected_names(entries@.map_values(|e: DirEntryInfo| e@)),
        ),
{
    let ghost all = entries@.map_values(|e: DirEntryInfo| e@);
    let mut jobs: Vec<ConversionJob> = Vec::new();
    let mut i: usize = 0;
    while i < entries.len()
        invariant
            i <= entries.len(),
            all == entries@.map_values(|e: DirEntryInfo| e@),
            all.len() == entries@.len(),
            jobs@.map_values(|j: ConversionJob| j@) == jobs_of(selected_names(all.take(i as int))),
        decreases entries.len() - i,
    {
        let entry = &entries[i];
        let matched = if entry.is_file {
            match crate::paths::extension_of_name(entry.name.as_str()) {
                Some(ext) => eq_ignore_ascii_case(ext, "mov"),
                None => false,
            }
        } else {
            false
        };
        assert(matched == selects(all[i as int]));
        proof {
            assert(all.take(i + 1).drop_last() =~= all.take(i as int));
            assert(all.take(i + 1).last() == all[i as int]);
            if matched {
                assert(selected_names(all.take(i + 1)) == selected_names(all.take(i as int)).push(
                    all[i as int].name,
                ));
            } else {
                assert(selected_names(all.take(i + 1)) == selected_names(all.take(i as int)));
            }
        }
        if matched {
            let job = ConversionJob::make(entry.name.as_str());
            assert(job@ == job_for(all[i as int].name));
            let ghost prev = jobs@;
            let ghost old_names = selected_names(all.take(i as int));
            jobs.push(job);
            proof {
                let names = selected_names(all.take(i + 1));
                assert(prev.map_values(|j: ConversionJob| j@).len() == prev.len());
                assert(jobs_of(old_names).len() == old_names.len());
                assert(names == old_names.push(all[i as int].name));
                assert(jobs_of(names).len() == names.len());
                assert forall|k: int| 0 <= k < jobs@.len() implies jobs@.map_values(
                    |j: ConversionJob| j@,
                )[k] == jobs_of(names)[k] by {
                    if k < prev.len() {
                        assert(prev.map_values(|j: ConversionJob| j@)[k] == jobs_of(old_names)[k]);
                    }
                }
                assert(jobs@.map_values(|j: ConversionJob| j@) =~= jobs_of(names));
            }
        } else {
            assert(jobs@.map_values(|j: ConversionJob| j@) =~= jobs_of(
                selected_names(all.take(i + 1)),
            ));
        }
        i += 1;
    }
    proof {
        assert(all.take(entries@.len() as int) =~= all);
    }
    jobs
}

/// Law: discovery selects every entry that is a regular file with a
/// matching extension, and, where the entries' names are distinct, no
/// other: a directory's name never appears among the selected names,
/// whatever that name looks like.
pub proof fn lemma_discovery_selects(entries: Seq<EntryView>, i: int)
    requires
        0 <= i < entries.len(),
    ensures
        selects(entries[i]) ==> selected_names(entries).contains(entries[i].name),
        (forall|j: int, k: int|
            0 <= j < k < entries.len() ==> entries[j].name != entries[k].name) && !selects(
            entries[i],
        ) ==> !selected_names(entries).contains(entries[i].name),
    decreases entries.len(),
{
    let last = entries.len() - 1;
    if i == last {
        if selects(entries[i]) {
            let prefix = selected_names(entries.drop_last());
            assert(selected_names(entries)[prefix.len() as int] == entries[i].name);
        } else {
            if entries.len() > 1 {
                lemma_selected_names_subset(entries.drop_last());
            }
        }
    } else {
        lemma_discovery_selects(entries.drop_last(), i);
        assert(entries.drop_last()[i] == entries[i]);
        if selects(entries[i]) {
            assert(selected_names(entries.drop_last()).contains(entries[i].name));
            if selects(entries.last()) {
                let names = selected_names(entries.drop_last());
                let w = choose|w: int| 0 <= w < names.len() && names[w] == entries[i].name;
                assert(names.push(entries.last().name)[w] == entries[i].name);
            }
        } else {
            if forall|j: int, k: int|
                0 <= j < k < entries.len() ==> entries[j].name != entries[k].name {
                assert(forall|j: int, k: int|
                    0 <= j < k < entries.drop_last().len() ==> entries.drop_last()[j].name
                        != entries.drop_last()[k].name);
                assert(!selected_names(entries.drop_last()).contains(entries[i].name));
                if selects(entries.last()) {
                    assert(entries[last].name != entries[i].name);
                }
            }
        }
    }
}

/// Every selected name is the name of some entry.
pub proof fn lemma_selected_names_subset(entries: Seq<EntryView>)
    ensures
        forall|w: int|
            0 <= w < selected_names(entries).len() ==> exists|j: int|
                0 <= j < entries.len() && entries[j].name == #[trigger] selected_names(entries)[w],
    decreases entries.len(),
{
    if entries.len() == 0 {
    } else {
        lemma_selected_names_subset(entries.drop_last());
        let names = selected_names(entries);
        let prefix = selected_names(entries.drop_last());
        assert forall|w: int| 0 <= w < names.len() implies exists|j: int|
            0 <= j < entries.len() && entries[j].name == #[trigger] names[w] by {
            if w < prefix.len() {
                let j = choose|j: int|
                    0 <= j < entries.drop_last().len() && entries.drop_last()[j].name == prefix[w];
                assert(entries[j].name == names[w]);
            } else {
                assert(names[w] == entries.last().name);
                assert(entries[entries.len() - 1].name == names[w]);
            }
        }
    }
}

} // verus!
