//! Record metadata: the settings of the jobs requested for a document.

use vstd::prelude::*;
use serde_json::Value;
use crate::json::{json_of, Json};

verus! {

/// The job type of automatic speech recognition.
pub const ASR: &'static str = "asr";

/// The entries of a settings map as they are stored.
pub type Entries = Seq<(String, Option<Value>)>;

/// What a stored setting stands for: nothing, or a JSON tree.
pub open spec fn setting_model(setting: Option<Value>) -> Option<Json> {
    match setting {
        Some(v) => Some(json_of(v)),
        None => None,
    }
}

/// Whether no job type occurs twice among `entries`.
pub open spec fn keys_unique(entries: Entries) -> bool {
    forall|i: int, j: int|
        0 <= i < j < entries.len() ==> (#[trigger] entries[i]).0@ != (#[trigger] entries[j]).0@
}

/// Whether `entries` holds the job type `key` at `i`.
pub open spec fn holds_at(entries: Entries, key: Seq<char>, i: int) -> bool {
    0 <= i < entries.len() && entries[i].0@ == key
}

/// Whether `entries` holds the job type `key`.
pub open spec fn holds(entries: Entries, key: Seq<char>) -> bool {
    exists|i: int| holds_at(entries, key, i)
}

/// The map that `entries` stands for.
pub open spec fn entries_map(entries: Entries) -> Map<Seq<char>, Option<Json>> {
    Map::new(
        |key: Seq<char>| holds(entries, key),
        |key: Seq<char>| setting_model(entries[choose|i: int| holds_at(entries, key, i)].1),
    )
}

/// Where the keys are unique, the entry at `i` is what the map holds for
/// its key.
proof fn lemma_entry_in_map(entries: Entries, i: int)
    requires
        keys_unique(entries),
        0 <= i < entries.len(),
    ensures
        entries_map(entries).contains_key(entries[i].0@),
        entries_map(entries)[entries[i].0@] == setting_model(entries[i].1),
{
    let key = entries[i].0@;
    assert(holds_at(entries, key, i));
    let k = choose|k: int| holds_at(entries, key, k);
    if k < i {
        assert(entries[k].0@ != entries[i].0@);
    } else if i < k {
        assert(entries[i].0@ != entries[k].0@);
    }
}

/// Putting another setting in the place of the one at `i`, under the same
/// job type, is inserting it into the map.
proof fn lemma_replace_entry(before: Entries, after: Entries, i: int)
    requires
        keys_unique(before),
        0 <= i < before.len(),
        after.len() == before.len(),
        after[i].0@ == before[i].0@,
        forall|j: int| 0 <= j < before.len() && j != i ==> after[j] == before[j],
    ensures
        keys_unique(after),
        entries_map(after) == entries_map(before).insert(after[i].0@, setting_model(after[i].1)),
{
    let key = after[i].0@;
    let target = entries_map(before).insert(key, setting_model(after[i].1));
    assert forall|a: int, b: int| 0 <= a < b < after.len() implies (#[trigger] after[a]).0@ != (
    #[trigger] after[b]).0@ by {
        assert(after[a].0@ == before[a].0@);
        assert(after[b].0@ == before[b].0@);
    }
    assert forall|k: Seq<char>| entries_map(after).contains_key(k) == target.contains_key(k) by {
        if holds(after, k) {
            let j = choose|j: int| holds_at(after, k, j);
            assert(holds_at(before, k, j));
        }
        if holds(before, k) {
            let j = choose|j: int| holds_at(before, k, j);
            assert(holds_at(after, k, j));
        }
        if k == key {
            assert(holds_at(after, k, i));
        }
    }
    assert forall|k: Seq<char>| entries_map(after).contains_key(k) implies (#[trigger] entries_map(
        after,
    )[k]) == target[k] by {
        let j = choose|j: int| holds_at(after, k, j);
        lemma_entry_in_map(after, j);
        if k != key {
            lemma_entry_in_map(before, j);
        } else {
            lemma_entry_in_map(after, i);
        }
    }
    assert(entries_map(after) =~= target);
}

/// Adding an entry for a job type that has none is inserting its setting
/// into the map.
proof fn lemma_push_entry(before: Entries, after: Entries)
    requires
        keys_unique(before),
        after.len() == before.len() + 1,
        forall|j: int| 0 <= j < before.len() ==> after[j] == before[j],
        !holds(before, after.last().0@),
    ensures
        keys_unique(after),
        entries_map(after) == entries_map(before).insert(
            after.last().0@,
            setting_model(after.last().1),
        ),
{
    let n = before.len() as int;
    let key = after[n].0@;
    let target = entries_map(before).insert(key, setting_model(after[n].1));
    assert forall|a: int, b: int| 0 <= a < b < after.len() implies (#[trigger] after[a]).0@ != (
    #[trigger] after[b]).0@ by {
        if b == n {
            assert(!holds_at(before, key, a));
        }
    }
    assert forall|k: Seq<char>| entries_map(after).contains_key(k) == target.contains_key(k) by {
        if holds(after, k) {
            let j = choose|j: int| holds_at(after, k, j);
            if j < n {
                assert(holds_at(before, k, j));
            }
        }
        if holds(before, k) {
            let j = choose|j: int| holds_at(before, k, j);
            assert(holds_at(after, k, j));
        }
        if k == key {
            assert(holds_at(after, k, n));
        }
    }
    assert forall|k: Seq<char>| entries_map(after).contains_key(k) implies (#[trigger] entries_map(
        after,
    )[k]) == target[k] by {
        let j = choose|j: int| holds_at(after, k, j);
        lemma_entry_in_map(after, j);
        if k != key {
            assert(j < n);
            lemma_entry_in_map(before, j);
        } else {
            lemma_entry_in_map(after, n);
        }
    }
    assert(entries_map(after) =~= target);
}

/// Settings by job type: for each type at most one entry, which holds
/// either nothing or a JSON tree (`true` asks for the type's defaults).
pub struct JobSettings {
    entries: Vec<(String, Option<Value>)>,
}

impl View for JobSettings {
    type V = Map<Seq<char>, Option<Json>>;

    closed spec fn view(&self) -> Map<Seq<char>, Option<Json>> {
        entries_map(self.entries@)
    }
}

impl JobSettings {
    #[verifier::type_invariant]
    spec fn unique(self) -> bool {
        keys_unique(self.entries@)
    }

    /// The settings of no job.
    pub fn new() -> (settings: JobSettings)
        ensures
            settings@ == Map::<Seq<char>, Option<Json>>::empty(),
    {
        let settings = JobSettings { entries: Vec::new() };
        assert(settings@ =~= Map::empty()) by {
            assert forall|key: Seq<char>| !holds(settings.entries@, key) by {
                assert forall|i: int| !holds_at(settings.entries@, key, i) by {}
            }
        }
        settings
    }

    /// The place of `job_type` among the entries.
    fn position(&self, job_type: &String) -> (at: Option<usize>)
        ensures
            match at {
                Some(i) => holds_at(self.entries@, job_type@, i as int),
                None => !holds(self.entries@, job_type@),
            },
    {
        let mut i: usize = 0;
        while i < self.entries.len()
            invariant
                i <= self.entries@.len(),
                forall|j: int| 0 <= j < i ==> !holds_at(self.entries@, job_type@, j),
            decreases self.entries@.len() - i,
        {
            if self.entries[i].0 == *job_type {
                return Some(i);
            }
            i += 1;
        }
        None
    }

    /// Sets the settings of `job_type`, replacing what the type had. The
    /// settings of every other job type stay as they are.
    pub fn insert(&mut self, job_type: String, settings: Option<Value>)
        ensures
            final(self)@ == old(self)@.insert(job_type@, setting_model(settings)),
    {
        proof {
            use_type_invariant(&*self);
        }
        let ghost before = self.entries@;
        let found = self.position(&job_type);
        let mut entries: Vec<(String, Option<Value>)> = Vec::new();
        std::mem::swap(&mut self.entries, &mut entries);
        match found {
            Some(i) => {
                entries.set(i, (job_type, settings));
                proof {
                    lemma_replace_entry(before, entries@, i as int);
                }
            },
            None => {
                entries.push((job_type, settings));
                proof {
                    lemma_push_entry(before, entries@);
                }
            },
        }
        std::mem::swap(&mut self.entries, &mut entries);
    }

    /// The settings of `job_type`, where it has an entry.
    pub fn get(&self, job_type: &str) -> (setting: Option<&Option<Value>>)
        ensures
            match setting {
                Some(s) => self@.contains_key(job_type@) && setting_model(*s) == self@[job_type@],
                None => !self@.contains_key(job_type@),
            },
    {
        proof {
            use_type_invariant(self);
        }
        let key = job_type.to_owned();
        match self.position(&key) {
            Some(i) => {
                proof {
                    lemma_entry_in_map(self.entries@, i as int);
                }
                Some(&self.entries[i].1)
            },
            None => None,
        }
    }

    /// The entries, one for each job type that has one.
    pub fn entries(&self) -> (entries: &Vec<(String, Option<Value>)>)
        ensures
            keys_unique(entries@),
            entries_map(entries@) == self@,
    {
        proof {
            use_type_invariant(self);
        }
        &self.entries
    }

    /// Whether `job_type` has an entry.
    pub fn contains_key(&self, job_type: &str) -> (b: bool)
        ensures
            b == self@.contains_key(job_type@),
    {
        self.get(job_type).is_some()
    }

    /// Whether no job type has an entry.
    pub fn is_empty(&self) -> (b: bool)
        ensures
            b == (self@ == Map::<Seq<char>, Option<Json>>::empty()),
    {
        let b = self.entries.len() == 0;
        proof {
            if b {
                assert forall|key: Seq<char>| !holds(self.entries@, key) by {
                    assert forall|i: int| !holds_at(self.entries@, key, i) by {}
                }
                assert(self@ =~= Map::empty());
            } else {
                assert(holds_at(self.entries@, self.entries@[0].0@, 0));
                assert(self@.contains_key(self.entries@[0].0@));
            }
        }
        b
    }
}

/// Inserting the settings of one job type into a map that holds those of
/// another leaves the other's as they were.
pub proof fn lemma_insert_keeps_other_jobs(
    settings: Map<Seq<char>, Option<Json>>,
    job_type: Seq<char>,
    value: Option<Json>,
    other: Seq<char>,
)
    requires
        settings.contains_key(other),
        other != job_type,
    ensures
        settings.insert(job_type, value).contains_key(other),
        settings.insert(job_type, value)[other] == settings[other],
{
}

/// What the metadata of a record says of jobs.
pub struct JobsMetaView {
    pub settings: Map<Seq<char>, Option<Json>>,
}

/// The part of a record's metadata that is about jobs.
pub struct JobsMeta {
    settings: JobSettings,
}

impl View for JobsMeta {
    type V = JobsMetaView;

    closed spec fn view(&self) -> JobsMetaView {
        JobsMetaView { settings: self.settings@ }
    }
}

impl JobsMeta {
    /// No job is requested.
    pub fn new() -> (jobs: JobsMeta)
        ensures
            jobs@.settings == Map::<Seq<char>, Option<Json>>::empty(),
    {
        JobsMeta { settings: JobSettings::new() }
    }

    /// The settings by job type.
    pub fn settings(&self) -> (settings: &JobSettings)
        ensures
            settings@ == self@.settings,
    {
        &self.settings
    }

    /// The settings by job type, to change them.
    pub fn settings_mut(&mut self) -> (settings: &mut JobSettings)
        ensures
            settings@ == old(self)@.settings,
            final(self)@.settings == final(settings)@,
    {
        &mut self.settings
    }
}

/// What the metadata of a record says.
pub struct RecordMetaView {
    pub jobs: JobsMetaView,
}

impl RecordMetaView {
    /// The metadata of a record that nothing was said about.
    pub open spec fn empty() -> RecordMetaView {
        RecordMetaView { jobs: JobsMetaView { settings: Map::empty() } }
    }
}

/// The metadata of a record.
pub struct RecordMeta {
    jobs: JobsMeta,
}

impl View for RecordMeta {
    type V = RecordMetaView;

    closed spec fn view(&self) -> RecordMetaView {
        RecordMetaView { jobs: self.jobs@ }
    }
}

impl RecordMeta {
    /// Metadata that says nothing.
    pub fn new() -> (meta: RecordMeta)
        ensures
            meta@ == RecordMetaView::empty(),
    {
        RecordMeta { jobs: JobsMeta::new() }
    }

    /// What the metadata says of jobs.
    pub fn jobs(&self) -> (jobs: &JobsMeta)
        ensures
            jobs@ == self@.jobs,
    {
        &self.jobs
    }

    /// What the metadata says of jobs, to change it.
    pub fn jobs_mut(&mut self) -> (jobs: &mut JobsMeta)
        ensures
            jobs@ == old(self)@.jobs,
            final(self)@.jobs == final(jobs)@,
    {
        &mut self.jobs
    }
}

} // verus!
