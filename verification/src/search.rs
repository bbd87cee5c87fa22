//! The search itself: one worker's loop, and the coordinator that races
//! several workers and reports a single outcome.

use rayon::iter::IntoParallelIterator;
use rayon::iter::ParallelIterator;
use vstd::prelude::*;
use crate::clock::Deadline;
use crate::keys::base58_text;
use crate::keys::coherent;
use crate::keys::keys_of;
use crate::keys::Candidate;
use crate::keys::ResultView;
use crate::keys::VanityResult;
use crate::matcher::pattern_matches;
use crate::request::RequestView;
use crate::request::VanityRequest;
use crate::signal::CancellationSignal;

verus! {

/// Why a search ended without a match.
#[derive(Clone, Copy, Debug, PartialEq, Eq, Structural)]
pub enum SearchError {
    /// The pattern has no characters.
    EmptyPattern,
    /// A cancellation was requested before any candidate matched.
    Cancelled,
    /// The deadline passed before any candidate matched.
    TimedOut,
    /// The attempts ran out before any candidate matched, with no
    /// cancellation and no passed deadline to account for it.
    Exhausted,
}

impl SearchError {
    /// The text recorded for this error.
    pub open spec fn message_text(self) -> Seq<char> {
        match self {
            SearchError::EmptyPattern => "Pattern must be at least 1 character long"@,
            SearchError::Cancelled => "Generation cancelled"@,
            SearchError::TimedOut => "Generation timed out"@,
            SearchError::Exhausted => "Generation gave up after its last attempt"@,
        }
    }

    /// The text recorded for this error.
    pub fn message(&self) -> (r: String)
        ensures
            r@ == self.message_text(),
    {
        match self {
            SearchError::EmptyPattern => "Pattern must be at least 1 character long".to_owned(),
            SearchError::Cancelled => "Generation cancelled".to_owned(),
            SearchError::TimedOut => "Generation timed out".to_owned(),
            SearchError::Exhausted => "Generation gave up after its last attempt".to_owned(),
        }
    }
}

/// The bounds of a search.
#[derive(Clone, Copy, Debug)]
pub struct SearchLimits {
    /// Seconds after which the search gives up; `None` for no deadline.
    pub timeout_secs: Option<u64>,
    /// Candidates that one worker tries before it gives up.
    pub max_attempts: u64,
    /// Number of workers; `None` for one per available core.
    pub workers: Option<usize>,
}

impl SearchLimits {
    /// No deadline, as many attempts as a counter can hold, and one worker
    /// per available core.
    pub fn unbounded() -> (r: SearchLimits)
        ensures
            r.timeout_secs is None,
            r.max_attempts == u64::MAX,
            r.workers is None,
    {
        SearchLimits { timeout_secs: None, max_attempts: u64::MAX, workers: None }
    }

    /// A deadline of `timeout_secs` seconds, as many attempts as a counter
    /// can hold, and one worker per available core.
    pub fn with_timeout(timeout_secs: u64) -> (r: SearchLimits)
        ensures
            r.timeout_secs == Some(timeout_secs),
            r.max_attempts == u64::MAX,
            r.workers is None,
    {
        SearchLimits { timeout_secs: Some(timeout_secs), max_attempts: u64::MAX, workers: None }
    }

    /// Whether no search within these limits can find anything: there are no
    /// workers, no attempts, or no time.
    pub open spec fn hopeless(self) -> bool {
        self.workers == Some(0usize) || self.max_attempts == 0 || self.timeout_secs == Some(0u64)
    }
}

/// What a search may hand out for a request: the address and the base58
/// text of one and the same keypair, the address matching the request's
/// pattern at its position.
pub open spec fn answers(found: ResultView, request: RequestView) -> bool {
    &&& pattern_matches(found.public_key, request.pattern, request.position)
    &&& coherent(found)
}

/// `num_cpus::get`: the number of logical cores available, at least one.
#[verifier::external_body]
fn worker_count() -> (r: usize)
    ensures
        r >= 1,
{
    num_cpus::get()
}

/// `find_map_any` of `rayon` over `0..workers`, each item mapped by one call
/// of `search_worker`: some result of those calls that is not `None`, or
/// `None` where every call returned `None` or there was no call. So what
/// `search_worker` ensures of its result holds of this one.
#[verifier::external_body]
fn race_workers(
    workers: usize,
    request: &VanityRequest,
    stop: &CancellationSignal,
    cancel: &CancellationSignal,
    deadline: &Deadline,
    max_attempts: u64,
) -> (r: Option<VanityResult>)
    ensures
        r matches Some(found) ==> answers(found@, request@),
        workers == 0 || max_attempts == 0 || deadline.limit() == Some(0u64) ==> r is None,
{
    (0..workers).into_par_iter().find_map_any(
        |_| search_worker(request, stop, cancel, deadline, max_attempts),
    )
}

/// Judges one candidate whose address is `address`: a result exactly when
/// the address matches the request, and then the result holds that address
/// and the candidate's keypair in base58.
pub fn judge(candidate: Candidate, address: String, request: &VanityRequest) -> (r: Option<
    VanityResult,
>)
    ensures
        r is Some <==> pattern_matches(address@, request@.pattern, request@.position),
        r matches Some(found) ==> found@ == (ResultView {
            public_key: address@,
            private_key: base58_text(candidate@),
        }),
{
    if crate::matcher::matches(address.as_str(), request.pattern.as_str(), request.position) {
        Some(candidate.into_result(address))
    } else {
        None
    }
}

/// A worker has to stop when a peer has raised the stop signal, when a
/// cancellation was requested, or when the deadline is over.
pub open spec fn stop_due(stop_raised: bool, cancel_raised: bool, deadline_over: bool) -> bool {
    stop_raised || cancel_raised || deadline_over
}

/// Decides from what was read of the two signals and the deadline whether a
/// worker has to stop.
pub fn stop_verdict(stop_raised: bool, cancel_raised: bool, deadline_over: bool) -> (r: bool)
    ensures
        r == stop_due(stop_raised, cancel_raised, deadline_over),
{
    stop_raised || cancel_raised || deadline_over
}

/// Whether a worker has to stop: reads the two signals and the deadline and
/// decides by `stop_verdict`. What is read depends on other threads and on
/// the time; only a deadline of no seconds settles the answer beforehand.
pub fn should_stop(stop: &CancellationSignal, cancel: &CancellationSignal, deadline: &Deadline) -> (r:
    bool)
    ensures
        deadline.limit() == Some(0u64) ==> r,
{
    let stop_raised = stop.is_requested();
    let cancel_raised = cancel.is_requested();
    let deadline_over = deadline.has_passed();
    stop_verdict(stop_raised, cancel_raised, deadline_over)
}

/// One worker: draws candidates until one matches, until it has to stop, or
/// until `max_attempts` candidates were tried. It looks at the signals and
/// the deadline before every candidate, and raises `stop` when it ends early
/// or finds a match, so that its peers end too.
pub fn search_worker(
    request: &VanityRequest,
    stop: &CancellationSignal,
    cancel: &CancellationSignal,
    deadline: &Deadline,
    max_attempts: u64,
) -> (r: Option<VanityResult>)
    ensures
        r matches Some(found) ==> answers(found@, request@),
        max_attempts == 0 || deadline.limit() == Some(0u64) ==> r is None,
{
    let mut attempts: u64 = 0;
    while attempts < max_attempts
        invariant
            attempts <= max_attempts,
        decreases max_attempts - attempts,
    {
        if should_stop(stop, cancel, deadline) {
            stop.request();
            return None;
        }
        let candidate = Candidate::generate();
        let address = candidate.address();
        let ghost bytes = candidate@;
        match judge(candidate, address, request) {
            Some(found) => {
                assert(found@ == keys_of(bytes));
                stop.request();
                return Some(found);
            },
            None => {},
        }
        attempts += 1;
    }
    None
}

/// The single outcome of a search, from what the workers found and whether a
/// cancellation was seen: a match wins over a cancellation that came beside
/// it; without a match a cancellation is reported as such, a passed
/// deadline as a timeout, and anything else as attempts that ran out.
pub open spec fn concluded(
    found: Option<VanityResult>,
    cancelled: bool,
    deadline_over: bool,
) -> Result<VanityResult, SearchError> {
    match found {
        Some(result) => Ok(result),
        None => if cancelled {
            Err(SearchError::Cancelled)
        } else if deadline_over {
            Err(SearchError::TimedOut)
        } else {
            Err(SearchError::Exhausted)
        },
    }
}

/// Reports the single outcome of a search.
pub fn conclude(found: Option<VanityResult>, cancelled: bool, deadline_over: bool) -> (r: Result<
    VanityResult,
    SearchError,
>)
    ensures
        r == concluded(found, cancelled, deadline_over),
{
    match found {
        Some(result) => Ok(result),
        None => if cancelled {
            Err(SearchError::Cancelled)
        } else if deadline_over {
            Err(SearchError::TimedOut)
        } else {
            Err(SearchError::Exhausted)
        },
    }
}

/// Searches with several workers at once: as many as `limits` says, one per
/// available core by default. The workers share a stop signal of their own;
/// `cancel` is the caller's. The first match that a worker hands back is the
/// outcome, also when a cancellation arrives beside it. Without a deadline
/// the search never ends in a timeout.
pub fn find_vanity_address(
    request: &VanityRequest,
    limits: &SearchLimits,
    cancel: &CancellationSignal,
) -> (r: Result<VanityResult, SearchError>)
    ensures
        r matches Ok(found) ==> answers(found@, request@),
        r matches Err(e) ==> e != SearchError::EmptyPattern,
        limits.hopeless() ==> r is Err,
        limits.timeout_secs is None ==> r != Err::<VanityResult, SearchError>(
            SearchError::TimedOut,
        ),
        limits.timeout_secs == Some(0u64) ==> r != Err::<VanityResult, SearchError>(
            SearchError::Exhausted,
        ),
{
    let stop = CancellationSignal::new();
    let deadline = Deadline::after(limits.timeout_secs);
    let workers = match limits.workers {
        Some(n) => n,
        None => worker_count(),
    };
    let found = race_workers(workers, request, &stop, cancel, &deadline, limits.max_attempts);
    let cancelled = cancel.is_requested();
    let deadline_over = deadline.has_passed();
    conclude(found, cancelled, deadline_over)
}

/// Searches on the calling thread for at most `timeout_secs` seconds. An
/// empty pattern is turned down.
pub fn generate_with_timeout(req: VanityRequest, timeout_secs: u64, cancel: &CancellationSignal) -> (r:
    Result<VanityResult, SearchError>)
    ensures
        req@.pattern.len() == 0 <==> r == Err::<VanityResult, SearchError>(
            SearchError::EmptyPattern,
        ),
        r matches Ok(found) ==> answers(found@, req@),
        timeout_secs == 0 ==> r is Err && r != Err::<VanityResult, SearchError>(
            SearchError::Exhausted,
        ),
{
    if req.pattern.as_str().is_empty() {
        return Err(SearchError::EmptyPattern);
    }
    let stop = CancellationSignal::new();
    let deadline = Deadline::after(Some(timeout_secs));
    let found = search_worker(&req, &stop, cancel, &deadline, u64::MAX);
    let cancelled = cancel.is_requested();
    let deadline_over = deadline.has_passed();
    conclude(found, cancelled, deadline_over)
}

} // verus!
