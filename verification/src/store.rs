//! The job store: every submitted job's record, keyed by job id.

use dashmap::DashMap;
use uuid::Uuid;
use vstd::prelude::*;
use crate::clock::Stopwatch;
use crate::job::JobRecord;
use crate::job::JobStatus;
use crate::job::JobView;
use crate::keys::VanityResult;
use crate::matcher::pattern_matches;
use crate::model::after_cancel_request;
use crate::model::after_cancelled;
use crate::model::after_complete;
use crate::model::after_error;
use crate::model::after_insert;
use crate::model::after_reap;
use crate::model::after_start;
use crate::model::has_status;
use crate::model::jobs_wf;
use crate::model::no_jobs;
use crate::model::Jobs;
use crate::request::VanityRequest;

verus! {

/// Seconds a record is kept before a sweep may discard it: 24 hours.
pub const RETENTION_SECS: u64 = 86400;

/// Seconds between two sweeps: one hour.
pub const SWEEP_INTERVAL_SECS: u64 = 3600;

/// Number of characters of a job id.
pub const JOB_ID_LEN: usize = 36;

/// The concurrent hash map of `dashmap`, opaque to the verifier.
#[verifier::external_type_specification]
#[verifier::external_body]
#[verifier::reject_recursive_types(K)]
#[verifier::reject_recursive_types(V)]
#[verifier::reject_recursive_types(S)]
pub struct ExDashMap<K, V, S>(DashMap<K, V, S>);

/// What a table holds: the content of the record stored under each id.
pub uninterp spec fn table_entries(table: &DashMap<String, JobRecord>) -> Map<Seq<char>, JobView>;

/// `DashMap::new`: a map without entries.
#[verifier::external_body]
fn table_new() -> (r: DashMap<String, JobRecord>)
    ensures
        table_entries(&r) == no_jobs(),
{
    DashMap::new()
}

/// `DashMap::insert`: puts `record` under `id`, replacing what was there.
/// The table is held exclusively, so nothing else changes, and the call
/// neither waits for a lock nor unwinds.
#[verifier::external_body]
fn table_insert(table: &mut DashMap<String, JobRecord>, id: String, record: JobRecord)
    ensures
        table_entries(final(table)) == table_entries(old(table)).insert(id@, record@),
    no_unwind
{
    table.insert(id, record);
}

/// `DashMap::get`: a copy of the record stored under `id`, if there is one.
#[verifier::external_body]
fn table_get(table: &DashMap<String, JobRecord>, id: &str) -> (r: Option<JobRecord>)
    ensures
        match r {
            Some(record) => table_entries(table).contains_key(id@) && record@ == table_entries(
                table,
            )[id@],
            None => !table_entries(table).contains_key(id@),
        },
{
    table.get(id).map(|entry| entry.value().clone())
}

/// `DashMap::remove`: takes out the entry under `id`; says whether there was
/// one. The table is held exclusively, so the call neither waits for a lock
/// nor unwinds.
#[verifier::external_body]
fn table_remove(table: &mut DashMap<String, JobRecord>, id: &str) -> (r: bool)
    ensures
        r == table_entries(old(table)).contains_key(id@),
        table_entries(final(table)) == table_entries(old(table)).remove(id@),
    no_unwind
{
    table.remove(id).is_some()
}

/// `DashMap::iter`: walks every entry once; the ids are handed out as a
/// vector, in the order of the walk, which is not specified.
#[verifier::external_body]
fn table_ids(table: &DashMap<String, JobRecord>) -> (r: Vec<String>)
    ensures
        forall|i: int| 0 <= i < r@.len() ==> table_entries(table).contains_key(#[trigger] r@[i]@),
        forall|id: Seq<char>| #[trigger]
            table_entries(table).contains_key(id) ==> listed(r@, r@.len() as int, id),
{
    table.iter().map(|entry| entry.key().clone()).collect()
}

/// `Uuid::new_v4` of `uuid` in its hyphenated form: a random job id. Of the
/// text only its length is claimed.
#[verifier::external_body]
fn fresh_job_id() -> (r: String)
    ensures
        r@.len() == JOB_ID_LEN,
{
    Uuid::new_v4().to_string()
}

/// The id `id` occurs among the first `upto` of `ids`.
pub open spec fn listed(ids: Seq<String>, upto: int, id: Seq<char>) -> bool {
    exists|j: int| 0 <= j < upto && #[trigger] ids[j]@ == id
}

/// Why an operation on a job was turned down.
#[derive(Clone, Copy, Debug, PartialEq, Eq, Structural)]
pub enum JobError {
    /// No job has this id.
    NotFound,
    /// The job is not pending, so it cannot be started.
    NotPending,
    /// The job is not running, so it cannot be ended.
    NotRunning,
}

/// The store of job records.
pub struct JobStore {
    table: DashMap<String, JobRecord>,
    clock: Stopwatch,
}

impl View for JobStore {
    type V = Jobs;

    closed spec fn view(&self) -> Jobs {
        table_entries(&self.table)
    }
}

impl JobStore {
    #[verifier::type_invariant]
    spec fn consistent(self) -> bool {
        jobs_wf(self@)
    }

    /// An empty store, with its clock started.
    pub fn new() -> (r: JobStore)
        ensures
            r@ == no_jobs(),
    {
        JobStore { table: table_new(), clock: Stopwatch::start() }
    }

    /// The time on the store's clock, in nanoseconds.
    pub fn now(&self) -> u128 {
        self.clock.elapsed_nanos()
    }

    /// Files a pending record for `request` under `id`, created at `now`
    /// nanoseconds. A record already filed under `id` is replaced.
    pub fn insert_at(&mut self, id: &str, request: VanityRequest, now: u128)
        ensures
            final(self)@ == after_insert(
                old(self)@,
                id@,
                request@,
                now,
                final(self)@[id@].signal,
            ),
            jobs_wf(final(self)@),
    {
        proof {
            use_type_invariant(&*self);
        }
        let record = JobRecord::new(id.to_owned(), request, now);
        table_insert(&mut self.table, id.to_owned(), record);
    }

    /// Files a pending record for `request` under a fresh random id, created
    /// at the clock's time, and returns the id. Should the random id be one
    /// already in use, its record is replaced.
    pub fn insert(&mut self, request: VanityRequest) -> (id: String)
        ensures
            id@.len() == JOB_ID_LEN,
            final(self)@.contains_key(id@),
            final(self)@ == after_insert(
                old(self)@,
                id@,
                request@,
                final(self)@[id@].created_at,
                final(self)@[id@].signal,
            ),
            jobs_wf(final(self)@),
    {
        let id = fresh_job_id();
        let now = self.now();
        self.insert_at(id.as_str(), request, now);
        id
    }

    /// A snapshot of the record under `id`.
    pub fn get(&self, id: &str) -> (r: Option<JobRecord>)
        ensures
            jobs_wf(self@),
            match r {
                Some(record) => self@.contains_key(id@) && record@ == self@[id@],
                None => !self@.contains_key(id@),
            },
    {
        proof {
            use_type_invariant(self);
        }
        table_get(&self.table, id)
    }

    /// Notes a cancellation request for the job `id` and raises its signal.
    /// An unknown id is reported and changes nothing; a job that has ended
    /// is left as it is. Asking twice is the same as asking once.
    pub fn request_cancel(&mut self, id: &str) -> (r: Result<(), JobError>)
        ensures
            final(self)@ == after_cancel_request(old(self)@, id@),
            r == if old(self)@.contains_key(id@) {
                Ok::<(), JobError>(())
            } else {
                Err(JobError::NotFound)
            },
            jobs_wf(final(self)@),
    {
        proof {
            use_type_invariant(&*self);
        }
        match table_get(&self.table, id) {
            None => Err(JobError::NotFound),
            Some(record) => {
                let noted = record.note_cancel();
                table_insert(&mut self.table, id.to_owned(), noted);
                Ok(())
            },
        }
    }

    /// Marks the pending job `id` as running.
    pub fn set_running(&mut self, id: &str)
        requires
            has_status(old(self)@, id@, JobStatus::Pending),
        ensures
            final(self)@ == after_start(old(self)@, id@),
            jobs_wf(final(self)@),
    {
        proof {
            use_type_invariant(&*self);
        }
        match table_get(&self.table, id) {
            None => {},
            Some(record) => {
                table_insert(&mut self.table, id.to_owned(), record.start());
            },
        }
    }

    /// Writes the match `found` into the running job `id`.
    pub fn set_complete(&mut self, id: &str, found: VanityResult)
        requires
            has_status(old(self)@, id@, JobStatus::Running),
            pattern_matches(
                found@.public_key,
                old(self)@[id@].request.pattern,
                old(self)@[id@].request.position,
            ),
        ensures
            final(self)@ == after_complete(old(self)@, id@, found@),
            jobs_wf(final(self)@),
    {
        proof {
            use_type_invariant(&*self);
        }
        match table_get(&self.table, id) {
            None => {},
            Some(record) => {
                table_insert(&mut self.table, id.to_owned(), record.complete(found));
            },
        }
    }

    /// Writes the failure `message` into the running job `id`.
    pub fn set_error(&mut self, id: &str, message: String)
        requires
            has_status(old(self)@, id@, JobStatus::Running),
        ensures
            final(self)@ == after_error(old(self)@, id@, message@),
            jobs_wf(final(self)@),
    {
        proof {
            use_type_invariant(&*self);
        }
        match table_get(&self.table, id) {
            None => {},
            Some(record) => {
                table_insert(&mut self.table, id.to_owned(), record.fail(message));
            },
        }
    }

    /// Marks the running job `id` as stopped by a cancellation.
    pub fn set_cancelled(&mut self, id: &str)
        requires
            has_status(old(self)@, id@, JobStatus::Running),
        ensures
            final(self)@ == after_cancelled(old(self)@, id@),
            jobs_wf(final(self)@),
    {
        proof {
            use_type_invariant(&*self);
        }
        match table_get(&self.table, id) {
            None => {},
            Some(record) => {
                table_insert(&mut self.table, id.to_owned(), record.stop());
            },
        }
    }

    /// Removes the record under `id`; says whether there was one.
    pub fn remove(&mut self, id: &str) -> (r: bool)
        ensures
            r == old(self)@.contains_key(id@),
            final(self)@ == old(self)@.remove(id@),
            jobs_wf(final(self)@),
    {
        proof {
            use_type_invariant(&*self);
        }
        table_remove(&mut self.table, id)
    }

    /// Discards every record that is older than `max_age` seconds at time
    /// `now`, given in nanoseconds, whatever its status, and leaves every
    /// other record untouched.
    pub fn reap_at(&mut self, max_age: u64, now: u128)
        ensures
            final(self)@ == after_reap(old(self)@, max_age, now),
            jobs_wf(final(self)@),
    {
        proof {
            use_type_invariant(&*self);
        }
        let ghost before = self@;
        let ids = table_ids(&self.table);
        let mut i: usize = 0;
        while i < ids.len()
            invariant
                i <= ids.len(),
                forall|id: Seq<char>| #[trigger]
                    before.contains_key(id) ==> listed(ids@, ids@.len() as int, id),
                forall|id: Seq<char>| #[trigger]
                    self@.contains_key(id) <==> before.contains_key(id) && !(before[id].older_than(
                        max_age,
                        now,
                    ) && listed(ids@, i as int, id)),
                forall|id: Seq<char>| #[trigger]
                    self@.contains_key(id) ==> self@[id] == before[id],
            decreases ids.len() - i,
        {
            proof {
                use_type_invariant(&*self);
            }
            let id = ids[i].as_str();
            let expired = match table_get(&self.table, id) {
                Some(record) => record.is_older_than(max_age, now),
                None => false,
            };
            if expired {
                table_remove(&mut self.table, id);
            }
            proof {
                assert forall|other: Seq<char>| #[trigger]
                    self@.contains_key(other) <==> before.contains_key(other) && !(
                    before[other].older_than(max_age, now) && listed(ids@, i + 1, other)) by {
                    if listed(ids@, i + 1, other) && !listed(ids@, i as int, other) {
                        let j = choose|j: int| 0 <= j < i + 1 && #[trigger] ids@[j]@ == other;
                        assert(j == i);
                    }
                    if listed(ids@, i as int, other) {
                        let j = choose|j: int| 0 <= j < i && #[trigger] ids@[j]@ == other;
                        assert(0 <= j < i + 1 && ids@[j]@ == other);
                    }
                    if other == id@ {
                        assert(0 <= i < i + 1 && ids@[i as int]@ == other);
                    }
                }
            }
            i += 1;
        }
        assert(self@ =~= after_reap(before, max_age, now));
    }

    /// Discards every record that is older than `max_age` seconds on the
    /// store's clock.
    pub fn reap_older_than(&mut self, max_age: u64)
        ensures
            exists|now: u128| final(self)@ == #[trigger] after_reap(old(self)@, max_age, now),
            jobs_wf(final(self)@),
    {
        let now = self.now();
        self.reap_at(max_age, now);
    }

    /// Discards every record that is older than the retention window of
    /// `RETENTION_SECS` seconds on the store's clock.
    pub fn sweep(&mut self)
        ensures
            exists|now: u128| final(self)@ == #[trigger] after_reap(
                old(self)@,
                RETENTION_SECS,
                now,
            ),
            jobs_wf(final(self)@),
    {
        self.reap_older_than(RETENTION_SECS);
    }

    /// Every store satisfies the store invariant.
    pub fn invariant_holds(&self)
        ensures
            jobs_wf(self@),
    {
        proof {
            use_type_invariant(self);
        }
    }
}

} // verus!
