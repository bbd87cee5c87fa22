//! A job's record and the forward-only state machine of its status.

use vstd::prelude::*;
use crate::clock::NANOS_PER_SEC;
use crate::keys::ResultView;
use crate::keys::VanityResult;
use crate::matcher::pattern_matches;
use crate::request::RequestView;
use crate::request::VanityRequest;
use crate::signal::CancellationSignal;
use crate::text::copy_optional_text;
use crate::text::optional_text_view;
use crate::text::text_equal;

verus! {

/// Where a job stands in its life.
#[derive(Clone, Copy, Debug, PartialEq, Eq, Structural)]
pub enum JobStatus {
    Pending,
    Running,
    Complete,
    Cancelled,
    Error,
}

impl JobStatus {
    /// A status that never changes again.
    pub open spec fn terminal(self) -> bool {
        self == JobStatus::Complete || self == JobStatus::Cancelled || self == JobStatus::Error
    }

    /// How far along a status is: pending, then running, then terminal.
    pub open spec fn rank(self) -> nat {
        match self {
            JobStatus::Pending => 0,
            JobStatus::Running => 1,
            _ => 2,
        }
    }

    /// The single steps of the state machine: pending to running, running to
    /// one of the three terminal statuses.
    pub open spec fn steps_to(self, next: JobStatus) -> bool {
        ||| self == JobStatus::Pending && next == JobStatus::Running
        ||| self == JobStatus::Running && next.terminal()
    }

    /// The name of a status on the wire.
    pub open spec fn name_text(self) -> Seq<char> {
        match self {
            JobStatus::Pending => "pending"@,
            JobStatus::Running => "running"@,
            JobStatus::Complete => "complete"@,
            JobStatus::Cancelled => "cancelled"@,
            JobStatus::Error => "error"@,
        }
    }

    /// The status that a name stands for, if any.
    pub open spec fn named(name: Seq<char>) -> Option<JobStatus> {
        if name == "pending"@ {
            Some(JobStatus::Pending)
        } else if name == "running"@ {
            Some(JobStatus::Running)
        } else if name == "complete"@ {
            Some(JobStatus::Complete)
        } else if name == "cancelled"@ {
            Some(JobStatus::Cancelled)
        } else if name == "error"@ {
            Some(JobStatus::Error)
        } else {
            None
        }
    }

    /// Whether the status is terminal.
    pub fn is_terminal(&self) -> (r: bool)
        ensures
            r == self.terminal(),
    {
        match self {
            JobStatus::Complete | JobStatus::Cancelled | JobStatus::Error => true,
            _ => false,
        }
    }

    /// The name of the status on the wire.
    pub fn name(&self) -> (r: String)
        ensures
            r@ == self.name_text(),
    {
        match self {
            JobStatus::Pending => "pending".to_owned(),
            JobStatus::Running => "running".to_owned(),
            JobStatus::Complete => "complete".to_owned(),
            JobStatus::Cancelled => "cancelled".to_owned(),
            JobStatus::Error => "error".to_owned(),
        }
    }

    /// Reads a status from its name on the wire.
    pub fn from_name(name: &str) -> (r: Option<JobStatus>)
        ensures
            r == JobStatus::named(name@),
    {
        if text_equal(name, "pending") {
            Some(JobStatus::Pending)
        } else if text_equal(name, "running") {
            Some(JobStatus::Running)
        } else if text_equal(name, "complete") {
            Some(JobStatus::Complete)
        } else if text_equal(name, "cancelled") {
            Some(JobStatus::Cancelled)
        } else if text_equal(name, "error") {
            Some(JobStatus::Error)
        } else {
            None
        }
    }
}

/// A status is read back from its own name.
pub proof fn status_name_round_trip(status: JobStatus)
    ensures
        JobStatus::named(status.name_text()) == Some(status),
{
    reveal_strlit("pending");
    reveal_strlit("running");
    reveal_strlit("complete");
    reveal_strlit("cancelled");
    reveal_strlit("error");
    assert("pending"@[0] == 'p' && "running"@[0] == 'r' && "error"@[0] == 'e');
    assert("complete"@[1] == 'o' && "cancelled"@[1] == 'a');
    assert("complete"@[0] == 'c' && "cancelled"@[0] == 'c');
}

/// The mathematical content of a job record.
pub struct JobView {
    pub id: Seq<char>,
    pub status: JobStatus,
    pub request: RequestView,
    /// When the job was submitted, in nanoseconds on the store's clock.
    pub created_at: u128,
    pub result: Option<ResultView>,
    pub error: Option<Seq<char>>,
    pub cancel_requested: bool,
    /// The job's own cancellation signal; every handle to it is equal to it.
    pub signal: CancellationSignal,
}

impl JobView {
    /// The invariant of a record: a result exactly when complete, an error
    /// text exactly when failed, and a result's address matches the request.
    pub open spec fn wf(self) -> bool {
        &&& self.result is Some <==> self.status == JobStatus::Complete
        &&& self.error is Some <==> self.status == JobStatus::Error
        &&& self.result matches Some(found) ==> pattern_matches(
            found.public_key,
            self.request.pattern,
            self.request.position,
        )
    }

    /// The record of a job that was just submitted, with `signal` as its
    /// cancellation signal.
    pub open spec fn submitted(
        id: Seq<char>,
        request: RequestView,
        created_at: u128,
        signal: CancellationSignal,
    ) -> JobView {
        JobView {
            id,
            status: JobStatus::Pending,
            request,
            created_at,
            result: None,
            error: None,
            cancel_requested: false,
            signal,
        }
    }

    /// The record once the search has started.
    pub open spec fn started(self) -> JobView {
        JobView { status: JobStatus::Running, ..self }
    }

    /// The record once a match was found.
    pub open spec fn completed(self, found: ResultView) -> JobView {
        JobView { status: JobStatus::Complete, result: Some(found), ..self }
    }

    /// The record once the search has failed with `message`.
    pub open spec fn failed(self, message: Seq<char>) -> JobView {
        JobView { status: JobStatus::Error, error: Some(message), ..self }
    }

    /// The record once the search was stopped by a cancellation.
    pub open spec fn stopped(self) -> JobView {
        JobView { status: JobStatus::Cancelled, ..self }
    }

    /// The record after a cancellation request: a job that has ended ignores
    /// it, any other remembers it.
    pub open spec fn cancel_noted(self) -> JobView {
        if self.status.terminal() {
            self
        } else {
            JobView { cancel_requested: true, ..self }
        }
    }

    /// Whether the record is older than `max_age` seconds at time `now`,
    /// given in nanoseconds as the time of creation is: any excess over the
    /// window counts, however small.
    pub open spec fn older_than(self, max_age: u64, now: u128) -> bool {
        now - self.created_at > max_age * NANOS_PER_SEC
    }
}

/// The authoritative state of one submitted search.
pub struct JobRecord {
    id: String,
    status: JobStatus,
    request: VanityRequest,
    created_at: u128,
    result: Option<VanityResult>,
    error: Option<String>,
    cancel_requested: bool,
    signal: CancellationSignal,
}

/// The content of an optional result.
pub open spec fn optional_result_view(result: Option<VanityResult>) -> Option<ResultView> {
    match result {
        Some(found) => Some(found@),
        None => None,
    }
}

/// A fresh owned copy of an optional result.
pub fn copy_optional_result(result: &Option<VanityResult>) -> (r: Option<VanityResult>)
    ensures
        optional_result_view(r) == optional_result_view(*result),
{
    match result {
        Some(found) => Some(found.clone()),
        None => None,
    }
}

impl View for JobRecord {
    type V = JobView;

    closed spec fn view(&self) -> JobView {
        JobView {
            id: self.id@,
            status: self.status,
            request: self.request@,
            created_at: self.created_at,
            result: optional_result_view(self.result),
            error: optional_text_view(self.error),
            cancel_requested: self.cancel_requested,
            signal: self.signal,
        }
    }
}

impl Clone for JobRecord {
    fn clone(&self) -> (r: Self)
        ensures
            r@ == self@,
    {
        proof {
            use_type_invariant(self);
        }
        JobRecord {
            id: self.id.clone(),
            status: self.status,
            request: self.request.clone(),
            created_at: self.created_at,
            result: copy_optional_result(&self.result),
            error: copy_optional_text(&self.error),
            cancel_requested: self.cancel_requested,
            signal: self.signal.share(),
        }
    }
}

impl JobRecord {
    #[verifier::type_invariant]
    spec fn well_formed(self) -> bool {
        self@.wf()
    }

    /// A pending record for a new job, with a cancellation signal of its
    /// own.
    pub fn new(id: String, request: VanityRequest, created_at: u128) -> (r: JobRecord)
        ensures
            r@ == JobView::submitted(id@, request@, created_at, r@.signal),
    {
        JobRecord {
            id,
            status: JobStatus::Pending,
            request,
            created_at,
            result: None,
            error: None,
            cancel_requested: false,
            signal: CancellationSignal::new(),
        }
    }

    /// The record with its search started.
    pub fn start(self) -> (r: JobRecord)
        requires
            self@.status == JobStatus::Pending,
        ensures
            r@ == self@.started(),
    {
        proof {
            use_type_invariant(&self);
        }
        JobRecord {
            id: self.id,
            status: JobStatus::Running,
            request: self.request,
            created_at: self.created_at,
            result: None,
            error: None,
            cancel_requested: self.cancel_requested,
            signal: self.signal,
        }
    }

    /// The record with the match `found` written into it.
    pub fn complete(self, found: VanityResult) -> (r: JobRecord)
        requires
            self@.status == JobStatus::Running,
            pattern_matches(found@.public_key, self@.request.pattern, self@.request.position),
        ensures
            r@ == self@.completed(found@),
    {
        proof {
            use_type_invariant(&self);
        }
        JobRecord {
            id: self.id,
            status: JobStatus::Complete,
            request: self.request,
            created_at: self.created_at,
            result: Some(found),
            error: None,
            cancel_requested: self.cancel_requested,
            signal: self.signal,
        }
    }

    /// The record with the failure `message` written into it.
    pub fn fail(self, message: String) -> (r: JobRecord)
        requires
            self@.status == JobStatus::Running,
        ensures
            r@ == self@.failed(message@),
    {
        proof {
            use_type_invariant(&self);
        }
        JobRecord {
            id: self.id,
            status: JobStatus::Error,
            request: self.request,
            created_at: self.created_at,
            result: None,
            error: Some(message),
            cancel_requested: self.cancel_requested,
            signal: self.signal,
        }
    }

    /// The record of a search that was stopped by a cancellation.
    pub fn stop(self) -> (r: JobRecord)
        requires
            self@.status == JobStatus::Running,
        ensures
            r@ == self@.stopped(),
    {
        proof {
            use_type_invariant(&self);
        }
        JobRecord {
            id: self.id,
            status: JobStatus::Cancelled,
            request: self.request,
            created_at: self.created_at,
            result: None,
            error: None,
            cancel_requested: self.cancel_requested,
            signal: self.signal,
        }
    }

    /// The record after a cancellation request. A job that has not ended
    /// remembers the request and has its signal raised; one that has ended is
    /// left as it is.
    pub fn note_cancel(self) -> (r: JobRecord)
        ensures
            r@ == self@.cancel_noted(),
    {
        proof {
            use_type_invariant(&self);
        }
        if self.status.is_terminal() {
            self
        } else {
            self.signal.request();
            JobRecord {
                id: self.id,
                status: self.status,
                request: self.request,
                created_at: self.created_at,
                result: self.result,
                error: self.error,
                cancel_requested: true,
                signal: self.signal,
            }
        }
    }

    /// The job's id.
    pub fn id(&self) -> (r: &String)
        ensures
            r@ == self@.id,
    {
        &self.id
    }

    /// The job's status.
    pub fn status(&self) -> (r: JobStatus)
        ensures
            r == self@.status,
    {
        self.status
    }

    /// The request the job was submitted with.
    pub fn request(&self) -> (r: &VanityRequest)
        ensures
            r@ == self@.request,
    {
        &self.request
    }

    /// When the job was submitted, in nanoseconds on the store's clock.
    pub fn created_at(&self) -> (r: u128)
        ensures
            r == self@.created_at,
    {
        self.created_at
    }

    /// The match, present exactly when the job is complete; its address
    /// matches the request.
    pub fn result(&self) -> (r: &Option<VanityResult>)
        ensures
            optional_result_view(*r) == self@.result,
            self@.wf(),
    {
        proof {
            use_type_invariant(self);
        }
        &self.result
    }

    /// The failure text, present exactly when the job has failed.
    pub fn error(&self) -> (r: &Option<String>)
        ensures
            optional_text_view(*r) == self@.error,
            self@.wf(),
    {
        proof {
            use_type_invariant(self);
        }
        &self.error
    }

    /// Whether a cancellation was requested while the job had not ended.
    pub fn cancel_requested(&self) -> (r: bool)
        ensures
            r == self@.cancel_requested,
    {
        self.cancel_requested
    }

    /// A handle to the job's own cancellation signal.
    pub(crate) fn signal(&self) -> (r: CancellationSignal)
        ensures
            r == self@.signal,
    {
        self.signal.share()
    }

    /// Whether the record is older than `max_age` seconds at time `now`,
    /// given in nanoseconds.
    pub fn is_older_than(&self, max_age: u64, now: u128) -> (r: bool)
        ensures
            r == self@.older_than(max_age, now),
    {
        let window: u128 = (max_age as u128) * NANOS_PER_SEC;
        now > self.created_at && now - self.created_at > window
    }
}

} // verus!
