//! What holds of the job table under every operation of the store.

use vstd::prelude::*;
use crate::job::JobStatus;
use crate::matcher::pattern_matches;
use crate::model::after_cancel_request;
use crate::model::after_cancelled;
use crate::model::after_complete;
use crate::model::after_error;
use crate::model::after_insert;
use crate::model::after_reap;
use crate::model::after_start;
use crate::model::has_status;
use crate::model::jobs_wf;
use crate::model::store_step;
use crate::model::Jobs;
use crate::keys::ResultView;
use crate::request::RequestView;
use crate::signal::CancellationSignal;
use crate::job::JobView;
use crate::search::SearchError;
use crate::supervisor::after_finish;
use crate::supervisor::failure_text;
use crate::supervisor::mismatch_text;
use crate::supervisor::settled;
use crate::supervisor::JobOutcome;

verus! {

/// A complete job holds a result whose address matches the pattern of the
/// job's own request at the request's position, ignoring case.
pub proof fn complete_job_matches_request(jobs: Jobs, id: Seq<char>)
    requires
        jobs_wf(jobs),
        has_status(jobs, id, JobStatus::Complete),
    ensures
        jobs[id].result is Some,
        jobs[id].error is None,
        pattern_matches(
            jobs[id].result->Some_0.public_key,
            jobs[id].request.pattern,
            jobs[id].request.position,
        ),
{
    assert(jobs.contains_key(id));
}

/// A job holds a result exactly when it is complete and an error text
/// exactly when it has failed: never both, and neither only while it is
/// pending, running or cancelled.
pub proof fn result_and_error_follow_status(jobs: Jobs, id: Seq<char>)
    requires
        jobs_wf(jobs),
        jobs.contains_key(id),
    ensures
        jobs[id].result is Some <==> jobs[id].status == JobStatus::Complete,
        jobs[id].error is Some <==> jobs[id].status == JobStatus::Error,
        !(jobs[id].result is Some && jobs[id].error is Some),
{
}

/// Every operation of the store keeps the store's invariant.
pub proof fn step_keeps_invariant(pre: Jobs, post: Jobs)
    requires
        jobs_wf(pre),
        store_step(pre, post),
    ensures
        jobs_wf(post),
{
    assert forall|id: Seq<char>| #[trigger] post.contains_key(id) implies post[id].wf()
        && post[id].id == id by {
        if pre.contains_key(id) {
            assert(pre[id].wf() && pre[id].id == id);
        }
    }
}

/// Each operation of the store, on a table on which it is allowed, is a
/// step: filing a job under an unused id, noting a cancellation request,
/// starting a pending job, ending a running job in any of the three ways,
/// removing a record, and sweeping.
pub proof fn operations_are_steps(
    jobs: Jobs,
    id: Seq<char>,
    request: RequestView,
    found: ResultView,
    message: Seq<char>,
    max_age: u64,
    now: u128,
    signal: CancellationSignal,
)
    ensures
        !jobs.contains_key(id) ==> store_step(jobs, after_insert(jobs, id, request, now, signal)),
        store_step(jobs, after_cancel_request(jobs, id)),
        has_status(jobs, id, JobStatus::Pending) ==> store_step(jobs, after_start(jobs, id)),
        has_status(jobs, id, JobStatus::Running) && pattern_matches(
            found.public_key,
            jobs[id].request.pattern,
            jobs[id].request.position,
        ) ==> store_step(jobs, after_complete(jobs, id, found)),
        has_status(jobs, id, JobStatus::Running) ==> store_step(
            jobs,
            after_error(jobs, id, message),
        ),
        has_status(jobs, id, JobStatus::Running) ==> store_step(jobs, after_cancelled(jobs, id)),
        store_step(jobs, jobs.remove(id)),
        store_step(jobs, after_reap(jobs, max_age, now)),
{
}

/// Writing an outcome into a running job is one operation of the store.
pub proof fn finish_is_step(jobs: Jobs, id: Seq<char>, outcome: JobOutcome)
    requires
        has_status(jobs, id, JobStatus::Running),
    ensures
        store_step(jobs, after_finish(jobs, id, outcome)),
{
    let post = after_finish(jobs, id, outcome);
    match outcome {
        JobOutcome::Found(found) => {
            if pattern_matches(
                found@.public_key,
                jobs[id].request.pattern,
                jobs[id].request.position,
            ) {
                assert(post == after_complete(jobs, id, found@));
            } else {
                assert(post == after_error(jobs, id, crate::supervisor::mismatch_text()));
            }
        },
        JobOutcome::TimedOut => {
            assert(post == after_error(
                jobs,
                id,
                crate::search::SearchError::TimedOut.message_text(),
            ));
        },
        JobOutcome::Cancelled => {
            assert(post == after_cancelled(jobs, id));
        },
        JobOutcome::Exhausted => {
            assert(post == after_error(
                jobs,
                id,
                crate::search::SearchError::Exhausted.message_text(),
            ));
        },
        JobOutcome::Failed => {
            assert(post == after_error(jobs, id, crate::supervisor::failure_text()));
        },
    }
}

/// Over one operation of the store a job's status stays where it is or
/// moves one step forward in the state machine, a job that has ended is not
/// changed at all, and every job keeps its own cancellation signal.
pub proof fn status_moves_forward(pre: Jobs, post: Jobs, id: Seq<char>)
    requires
        store_step(pre, post),
        pre.contains_key(id),
        post.contains_key(id),
    ensures
        pre[id].status == post[id].status || pre[id].status.steps_to(post[id].status),
        pre[id].status.rank() <= post[id].status.rank(),
        pre[id].status.terminal() ==> post[id] == pre[id],
        post[id].signal == pre[id].signal,
{
}

/// Over any run of operations, as long as the job stays in the store, its
/// status never moves backwards, and once it has ended its record never
/// changes again.
pub proof fn polling_is_monotonic(trace: Seq<Jobs>, from: int, to: int, id: Seq<char>)
    requires
        0 <= from <= to < trace.len(),
        forall|k: int| from <= k < to ==> store_step(#[trigger] trace[k], trace[k + 1]),
        forall|k: int| from <= k <= to ==> (#[trigger] trace[k]).contains_key(id),
    ensures
        trace[from][id].status.rank() <= trace[to][id].status.rank(),
        trace[from][id].status.terminal() ==> trace[to][id] == trace[from][id],
    decreases to - from,
{
    if from < to {
        polling_is_monotonic(trace, from, to - 1, id);
        assert(store_step(trace[to - 1], trace[to - 1 + 1]));
        assert(trace[to - 1].contains_key(id));
        assert(trace[to].contains_key(id));
        status_moves_forward(trace[to - 1], trace[to], id);
    }
}

/// A job whose cancellation was requested while it was running ends in
/// exactly one terminal status once its outcome is written down: complete
/// with a result when a match had been produced, cancelled with neither a
/// result nor an error when the cancellation was seen first, failed with an
/// error text otherwise. The request itself stays on record.
pub proof fn cancelled_job_ends_once(jobs: Jobs, id: Seq<char>, outcome: JobOutcome)
    requires
        jobs_wf(jobs),
        has_status(jobs, id, JobStatus::Running),
    ensures
        ({
            let asked = after_cancel_request(jobs, id);
            let ended = after_finish(asked, id, outcome)[id];
            &&& has_status(asked, id, JobStatus::Running)
            &&& ended.status.terminal()
            &&& ended.wf()
            &&& ended.cancel_requested
            &&& !(ended.result is Some && ended.error is Some)
            &&& outcome is Cancelled ==> ended.status == JobStatus::Cancelled && ended.result is None
                && ended.error is None
            &&& outcome matches JobOutcome::Found(found) ==> (pattern_matches(
                found@.public_key,
                jobs[id].request.pattern,
                jobs[id].request.position,
            ) ==> ended.status == JobStatus::Complete && ended.result == Some(found@))
        }),
{
    assert(jobs.contains_key(id));
    assert(jobs[id].wf());
}

/// A job ends with the text of a timeout only when its search timed out:
/// the texts of the other failures differ from it.
pub proof fn timeout_text_means_timeout(job: JobView, outcome: JobOutcome)
    requires
        settled(job, outcome).error == Some(SearchError::TimedOut.message_text()),
        job.error is None,
    ensures
        outcome is TimedOut,
{
    reveal_strlit("Generation timed out");
    reveal_strlit("Generation gave up after its last attempt");
    reveal_strlit("Task was canceled");
    reveal_strlit("Search returned an address that does not match the request");
    assert("Generation timed out"@.len() == 20);
    assert("Generation gave up after its last attempt"@.len() == 41);
    assert(failure_text().len() == 17);
    assert(mismatch_text().len() == 58);
}

/// Asking twice for the cancellation of a job leaves the table as asking
/// once does, and both requests are answered alike.
pub proof fn cancel_request_is_idempotent(jobs: Jobs, id: Seq<char>)
    ensures
        after_cancel_request(after_cancel_request(jobs, id), id) == after_cancel_request(jobs, id),
        after_cancel_request(jobs, id).contains_key(id) == jobs.contains_key(id),
{
    let once = after_cancel_request(jobs, id);
    assert(after_cancel_request(once, id) =~= once);
}

/// A cancellation request never changes a job's status, result or error,
/// and never touches another job.
pub proof fn cancel_request_only_signals(jobs: Jobs, id: Seq<char>, other: Seq<char>)
    requires
        jobs.contains_key(other),
    ensures
        after_cancel_request(jobs, id).contains_key(other),
        after_cancel_request(jobs, id)[other].status == jobs[other].status,
        after_cancel_request(jobs, id)[other].result == jobs[other].result,
        after_cancel_request(jobs, id)[other].error == jobs[other].error,
        after_cancel_request(jobs, id)[other].signal == jobs[other].signal,
        other != id ==> after_cancel_request(jobs, id)[other] == jobs[other],
{
}

/// A cancellation request for an id that the store does not hold changes
/// nothing and creates no record.
pub proof fn unknown_id_stays_unknown(jobs: Jobs, id: Seq<char>)
    requires
        !jobs.contains_key(id),
    ensures
        after_cancel_request(jobs, id) == jobs,
        !after_cancel_request(jobs, id).contains_key(id),
{
}

/// After a sweep no record older than the window is left, whatever its
/// status was, and every younger record is there unchanged.
pub proof fn sweep_removes_exactly_the_old(jobs: Jobs, max_age: u64, now: u128, id: Seq<char>)
    requires
        jobs.contains_key(id),
    ensures
        jobs[id].older_than(max_age, now) ==> !after_reap(jobs, max_age, now).contains_key(id),
        !jobs[id].older_than(max_age, now) ==> after_reap(jobs, max_age, now).contains_key(id)
            && after_reap(jobs, max_age, now)[id] == jobs[id],
{
}

/// Starting a pending job and then writing any outcome into it leaves the
/// job in a terminal status.
pub proof fn started_job_ends(jobs: Jobs, id: Seq<char>, outcome: JobOutcome)
    requires
        has_status(jobs, id, JobStatus::Pending),
    ensures
        has_status(after_start(jobs, id), id, JobStatus::Running),
        after_finish(after_start(jobs, id), id, outcome)[id].status.terminal(),
{
}

} // verus!
