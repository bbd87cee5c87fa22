//! The job supervisor: takes requests in, starts their searches and writes
//! down how each search ended.

use vstd::prelude::*;
use crate::job::JobStatus;
use crate::job::JobView;
use crate::keys::VanityResult;
use crate::matcher::pattern_matches;
use crate::model::after_insert;
use crate::model::after_start;
use crate::model::has_status;
use crate::model::jobs_wf;
use crate::model::Jobs;
use crate::request::parsed_request;
use crate::request::RequestView;
use crate::request::RequestError;
use crate::request::VanityRequest;
use crate::search::answers;
use crate::search::find_vanity_address;
use crate::search::SearchError;
use crate::search::SearchLimits;
use crate::signal::CancellationSignal;
use crate::store::JobError;
use crate::store::JobStore;
use crate::store::JOB_ID_LEN;

verus! {

/// How the search of a job ended.
#[derive(Debug, PartialEq, Eq)]
pub enum JobOutcome {
    /// A candidate matched.
    Found(VanityResult),
    /// The deadline passed without a match.
    TimedOut,
    /// A cancellation was seen before any match.
    Cancelled,
    /// The attempts ran out without a match.
    Exhausted,
    /// The search task itself broke down.
    Failed,
}

/// The outcome that a search result stands for.
pub open spec fn outcome_of(searched: Result<VanityResult, SearchError>) -> JobOutcome {
    match searched {
        Ok(found) => JobOutcome::Found(found),
        Err(SearchError::Cancelled) => JobOutcome::Cancelled,
        Err(SearchError::TimedOut) => JobOutcome::TimedOut,
        Err(SearchError::Exhausted) => JobOutcome::Exhausted,
        Err(SearchError::EmptyPattern) => JobOutcome::Failed,
    }
}

/// The text recorded when the search task broke down.
pub open spec fn failure_text() -> Seq<char> {
    "Task was canceled"@
}

/// The text recorded when a search hands back an address that does not match
/// its request.
pub open spec fn mismatch_text() -> Seq<char> {
    "Search returned an address that does not match the request"@
}

/// The record of a running job once `outcome` is written into it: a match
/// completes it, a cancellation stops it, anything else fails it with a text
/// that tells the cases apart.
pub open spec fn settled(job: JobView, outcome: JobOutcome) -> JobView {
    match outcome {
        JobOutcome::Found(found) => if pattern_matches(
            found@.public_key,
            job.request.pattern,
            job.request.position,
        ) {
            job.completed(found@)
        } else {
            job.failed(mismatch_text())
        },
        JobOutcome::TimedOut => job.failed(SearchError::TimedOut.message_text()),
        JobOutcome::Cancelled => job.stopped(),
        JobOutcome::Exhausted => job.failed(SearchError::Exhausted.message_text()),
        JobOutcome::Failed => job.failed(failure_text()),
    }
}

/// What a search for `request` within `limits` can end in: a match that
/// answers the request, a cancellation, attempts that ran out, or, where
/// there is a deadline, a timeout.
pub open spec fn search_outcome(
    outcome: JobOutcome,
    request: RequestView,
    limits: SearchLimits,
) -> bool {
    match outcome {
        JobOutcome::Found(found) => answers(found@, request),
        JobOutcome::TimedOut => limits.timeout_secs is Some,
        JobOutcome::Cancelled => true,
        JobOutcome::Exhausted => true,
        JobOutcome::Failed => false,
    }
}

/// The table after `outcome` was written into the running job `id`.
pub open spec fn after_finish(jobs: Jobs, id: Seq<char>, outcome: JobOutcome) -> Jobs {
    jobs.insert(id, settled(jobs[id], outcome))
}

/// What a started job's search needs: the request and the signal that a
/// cancellation request raises.
pub struct StartedJob {
    pub request: VanityRequest,
    pub cancel: CancellationSignal,
}

/// Turns the result of a search into a job outcome.
pub fn outcome_from(searched: Result<VanityResult, SearchError>) -> (r: JobOutcome)
    ensures
        r == outcome_of(searched),
{
    match searched {
        Ok(found) => JobOutcome::Found(found),
        Err(SearchError::Cancelled) => JobOutcome::Cancelled,
        Err(SearchError::TimedOut) => JobOutcome::TimedOut,
        Err(SearchError::Exhausted) => JobOutcome::Exhausted,
        Err(SearchError::EmptyPattern) => JobOutcome::Failed,
    }
}

/// Validates a request and, if it is valid, files a pending job for it and
/// returns the job's id, a text of `JOB_ID_LEN` characters. An invalid
/// request is turned down and no job is created.
pub fn submit(store: &mut JobStore, pattern: &str, position: &str) -> (r: Result<
    String,
    RequestError,
>)
    ensures
        jobs_wf(final(store)@),
        match parsed_request(pattern@, position@) {
            Err(e) => r == Err::<String, RequestError>(e) && final(store)@ == old(store)@,
            Ok(request) => {
                &&& r matches Ok(id)
                &&& id@.len() == JOB_ID_LEN
                &&& final(store)@.contains_key(id@)
                &&& final(store)@ == after_insert(
                    old(store)@,
                    id@,
                    request,
                    final(store)@[id@].created_at,
                    final(store)@[id@].signal,
                )
            },
        },
{
    match VanityRequest::parse(pattern, position) {
        Err(e) => {
            store.invariant_holds();
            Err(e)
        },
        Ok(request) => Ok(store.insert(request)),
    }
}

/// Starts the pending job `id`: marks it running and hands out what its
/// search needs, the job's request and a handle to the job's own signal.
/// Any other job is left as it is.
pub fn begin(store: &mut JobStore, id: &str) -> (r: Result<StartedJob, JobError>)
    ensures
        jobs_wf(final(store)@),
        match r {
            Ok(started) => has_status(old(store)@, id@, JobStatus::Pending) && final(store)@
                == after_start(old(store)@, id@) && started.request@ == old(store)@[id@].request
                && started.cancel == old(store)@[id@].signal,
            Err(JobError::NotFound) => !old(store)@.contains_key(id@) && final(store)@ == old(store)@,
            Err(JobError::NotPending) => old(store)@.contains_key(id@) && old(store)@[id@].status
                != JobStatus::Pending && final(store)@ == old(store)@,
            Err(JobError::NotRunning) => false,
        },
{
    match store.get(id) {
        None => Err(JobError::NotFound),
        Some(record) => {
            if record.status() == JobStatus::Pending {
                let started = StartedJob {
                    request: record.request().clone(),
                    cancel: record.signal(),
                };
                store.set_running(id);
                Ok(started)
            } else {
                Err(JobError::NotPending)
            }
        },
    }
}

/// Writes `outcome` into the running job `id` and returns the status the
/// job ends in. Any other job is left as it is.
pub fn finish(store: &mut JobStore, id: &str, outcome: JobOutcome) -> (r: Result<
    JobStatus,
    JobError,
>)
    ensures
        jobs_wf(final(store)@),
        match r {
            Ok(status) => has_status(old(store)@, id@, JobStatus::Running) && final(store)@
                == after_finish(old(store)@, id@, outcome) && status == final(store)@[id@].status,
            Err(JobError::NotFound) => !old(store)@.contains_key(id@) && final(store)@ == old(store)@,
            Err(JobError::NotRunning) => old(store)@.contains_key(id@) && old(store)@[id@].status
                != JobStatus::Running && final(store)@ == old(store)@,
            Err(JobError::NotPending) => false,
        },
{
    match store.get(id) {
        None => Err(JobError::NotFound),
        Some(record) => {
            if record.status() != JobStatus::Running {
                return Err(JobError::NotRunning);
            }
            match outcome {
                JobOutcome::Found(found) => {
                    let request = record.request();
                    if crate::matcher::matches(
                        found.public_key.as_str(),
                        request.pattern.as_str(),
                        request.position,
                    ) {
                        store.set_complete(id, found);
                        Ok(JobStatus::Complete)
                    } else {
                        store.set_error(
                            id,
                            "Search returned an address that does not match the request".to_owned(),
                        );
                        Ok(JobStatus::Error)
                    }
                },
                JobOutcome::TimedOut => {
                    store.set_error(id, SearchError::TimedOut.message());
                    Ok(JobStatus::Error)
                },
                JobOutcome::Cancelled => {
                    store.set_cancelled(id);
                    Ok(JobStatus::Cancelled)
                },
                JobOutcome::Exhausted => {
                    store.set_error(id, SearchError::Exhausted.message());
                    Ok(JobStatus::Error)
                },
                JobOutcome::Failed => {
                    store.set_error(id, "Task was canceled".to_owned());
                    Ok(JobStatus::Error)
                },
            }
        },
    }
}

/// Runs the pending job `id` to its end on the calling thread: starts it,
/// searches within `limits`, and writes the outcome down. The job ends in a
/// terminal status, and without a deadline never in a timeout; any job that
/// is not pending is left as it is.
pub fn process(store: &mut JobStore, id: &str, limits: &SearchLimits) -> (r: Result<
    JobStatus,
    JobError,
>)
    ensures
        jobs_wf(final(store)@),
        match r {
            Ok(status) => {
                &&& has_status(old(store)@, id@, JobStatus::Pending)
                &&& exists|outcome: JobOutcome|
                    search_outcome(outcome, old(store)@[id@].request, *limits) && final(store)@
                        == #[trigger] after_finish(after_start(old(store)@, id@), id@, outcome)
                &&& has_status(final(store)@, id@, status)
                &&& status.terminal()
                &&& limits.hopeless() ==> status != JobStatus::Complete
            },
            Err(JobError::NotFound) => !old(store)@.contains_key(id@) && final(store)@ == old(
                store)@,
            Err(JobError::NotPending) => old(store)@.contains_key(id@) && old(store)@[id@].status
                != JobStatus::Pending && final(store)@ == old(store)@,
            Err(JobError::NotRunning) => false,
        },
{
    match begin(store, id) {
        Err(e) => Err(e),
        Ok(started) => {
            let searched = find_vanity_address(&started.request, limits, &started.cancel);
            let outcome = outcome_from(searched);
            finish(store, id, outcome)
        },
    }
}

} // verus!
