//! What a polling client decides from a status report.

use vstd::prelude::*;
use crate::job::JobStatus;
use crate::keys::ResultView;
use crate::keys::VanityResult;
use crate::text::text_equal;

verus! {

/// What a client does after one poll.
#[derive(Debug, PartialEq, Eq)]
pub enum PollAction {
    /// The job is complete: show the keys and stop polling.
    Finished(VanityResult),
    /// The job has failed: report it and stop polling.
    Failed,
    /// Nothing to show yet: poll again.
    Waiting,
}

/// The job id that an answer to a submission carries: none where the answer
/// names none or an empty one.
pub open spec fn accepted_id(job_id: Option<Seq<char>>) -> Option<Seq<char>> {
    match job_id {
        Some(id) => if id.len() == 0 {
            None
        } else {
            Some(id)
        },
        None => None,
    }
}

/// The status that a report stands for: the status it names, or `error`
/// where it names none.
pub open spec fn reported_status(status: Option<Seq<char>>) -> Seq<char> {
    match status {
        Some(name) => name,
        None => JobStatus::Error.name_text(),
    }
}

/// The keys that a report carries: those of a report that says `complete`,
/// none of any other.
pub open spec fn reported_keys(status: Option<Seq<char>>, keys: Option<ResultView>) -> Option<
    ResultView,
> {
    if status == Some(JobStatus::Complete.name_text()) {
        keys
    } else {
        None
    }
}

/// The action that follows a poll: `complete` with keys ends the polling
/// with the keys, `error` ends it with a failure, anything else goes on.
pub open spec fn action_after(status: Seq<char>, keys: Option<VanityResult>) -> PollAction {
    if status == JobStatus::Complete.name_text() {
        match keys {
            Some(found) => PollAction::Finished(found),
            None => PollAction::Waiting,
        }
    } else if status == JobStatus::Error.name_text() {
        PollAction::Failed
    } else {
        PollAction::Waiting
    }
}

/// Reads the job id from the answer to a submission. An answer without an
/// id, or with an empty one, means that no job was started.
pub fn read_job_id(job_id: Option<&str>) -> (r: Option<String>)
    ensures
        crate::text::optional_text_view(r) == accepted_id(crate::text::optional_str_view(job_id)),
{
    match job_id {
        None => None,
        Some(id) => {
            if id.is_empty() {
                None
            } else {
                Some(id.to_owned())
            }
        },
    }
}

/// Reads a status report: the status name, and the keys if the report says
/// `complete`. A report without a status counts as `error`.
pub fn read_report(status: Option<&str>, keys: Option<VanityResult>) -> (r: (
    String,
    Option<VanityResult>,
))
    ensures
        r.0@ == reported_status(crate::text::optional_str_view(status)),
        crate::job::optional_result_view(r.1) == reported_keys(
            crate::text::optional_str_view(status),
            crate::job::optional_result_view(keys),
        ),
{
    match status {
        None => ("error".to_owned(), None),
        Some(name) => {
            if text_equal(name, "complete") {
                (name.to_owned(), keys)
            } else {
                (name.to_owned(), None)
            }
        },
    }
}

/// Decides what to do after a poll that reported `status` and `keys`.
pub fn next_action(status: &str, keys: Option<VanityResult>) -> (r: PollAction)
    ensures
        r == action_after(status@, keys),
{
    if text_equal(status, "complete") {
        match keys {
            Some(found) => PollAction::Finished(found),
            None => PollAction::Waiting,
        }
    } else if text_equal(status, "error") {
        PollAction::Failed
    } else {
        PollAction::Waiting
    }
}

} // verus!
