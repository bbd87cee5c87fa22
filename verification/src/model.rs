//! The job table as a mathematical map, and what each operation of the store
//! does to it.

use vstd::prelude::*;
use crate::job::JobStatus;
use crate::job::JobView;
use crate::keys::ResultView;
use crate::matcher::pattern_matches;
use crate::request::RequestView;
use crate::signal::CancellationSignal;

verus! {

/// The content of a store: the record of each job, by job id.
pub type Jobs = Map<Seq<char>, JobView>;

/// The content of a store without jobs.
pub open spec fn no_jobs() -> Jobs {
    Map::empty()
}

/// The invariant of a store: every record is well formed and is filed under
/// its own id.
pub open spec fn jobs_wf(jobs: Jobs) -> bool {
    forall|id: Seq<char>| #[trigger]
        jobs.contains_key(id) ==> jobs[id].wf() && jobs[id].id == id
}

/// The job `id` exists and has the status `status`.
pub open spec fn has_status(jobs: Jobs, id: Seq<char>, status: JobStatus) -> bool {
    jobs.contains_key(id) && jobs[id].status == status
}

/// The table after a job was submitted under `id` at time `now`, with
/// `signal` as its cancellation signal.
pub open spec fn after_insert(
    jobs: Jobs,
    id: Seq<char>,
    request: RequestView,
    now: u128,
    signal: CancellationSignal,
) -> Jobs {
    jobs.insert(id, JobView::submitted(id, request, now, signal))
}

/// The table after a cancellation request for `id`: an unknown id changes
/// nothing.
pub open spec fn after_cancel_request(jobs: Jobs, id: Seq<char>) -> Jobs {
    if jobs.contains_key(id) {
        jobs.insert(id, jobs[id].cancel_noted())
    } else {
        jobs
    }
}

/// The table after the search of the pending job `id` has started.
pub open spec fn after_start(jobs: Jobs, id: Seq<char>) -> Jobs {
    jobs.insert(id, jobs[id].started())
}

/// The table after the running job `id` has found `found`.
pub open spec fn after_complete(jobs: Jobs, id: Seq<char>, found: ResultView) -> Jobs {
    jobs.insert(id, jobs[id].completed(found))
}

/// The table after the running job `id` has failed with `message`.
pub open spec fn after_error(jobs: Jobs, id: Seq<char>, message: Seq<char>) -> Jobs {
    jobs.insert(id, jobs[id].failed(message))
}

/// The table after the running job `id` was stopped by a cancellation.
pub open spec fn after_cancelled(jobs: Jobs, id: Seq<char>) -> Jobs {
    jobs.insert(id, jobs[id].stopped())
}

/// The ids of the records that are older than `max_age` seconds at `now`.
pub open spec fn expired_ids(jobs: Jobs, max_age: u64, now: u128) -> Set<Seq<char>> {
    Set::new(|id: Seq<char>| jobs.contains_key(id) && jobs[id].older_than(max_age, now))
}

/// The table after a sweep at `now`: every record older than `max_age`
/// seconds is gone, whatever its status; every other record is untouched.
pub open spec fn after_reap(jobs: Jobs, max_age: u64, now: u128) -> Jobs {
    jobs.remove_keys(expired_ids(jobs, max_age, now))
}

/// One operation of the store, seen as a relation between the table before
/// and after it.
pub open spec fn store_step(pre: Jobs, post: Jobs) -> bool {
    ||| exists|id: Seq<char>, request: RequestView, now: u128, signal: CancellationSignal|
        !pre.contains_key(id) && post == #[trigger] after_insert(pre, id, request, now, signal)
    ||| exists|id: Seq<char>| post == #[trigger] after_cancel_request(pre, id)
    ||| exists|id: Seq<char>|
        has_status(pre, id, JobStatus::Pending) && post == #[trigger] after_start(pre, id)
    ||| exists|id: Seq<char>, found: ResultView|
        has_status(pre, id, JobStatus::Running) && pattern_matches(
            found.public_key,
            pre[id].request.pattern,
            pre[id].request.position,
        ) && post == #[trigger] after_complete(pre, id, found)
    ||| exists|id: Seq<char>, message: Seq<char>|
        has_status(pre, id, JobStatus::Running) && post == #[trigger] after_error(pre, id, message)
    ||| exists|id: Seq<char>|
        has_status(pre, id, JobStatus::Running) && post == #[trigger] after_cancelled(pre, id)
    ||| exists|id: Seq<char>| post == #[trigger] pre.remove(id)
    ||| exists|max_age: u64, now: u128| post == #[trigger] after_reap(pre, max_age, now)
}

} // verus!
