use solana_vanity::job::JobStatus;
use solana_vanity::request::RequestError;
use solana_vanity::search::SearchError;
use solana_vanity::search::SearchLimits;
use solana_vanity::store::JobError;
use solana_vanity::store::JobStore;
use solana_vanity::supervisor::begin;
use solana_vanity::supervisor::finish;
use solana_vanity::supervisor::outcome_from;
use solana_vanity::supervisor::process;
use solana_vanity::supervisor::submit;
use solana_vanity::supervisor::JobOutcome;
use solana_vanity::VanityPosition;
use solana_vanity::VanityRequest;
use solana_vanity::VanityResult;

fn found(address: &str) -> VanityResult {
    VanityResult { public_key: address.to_string(), private_key: "secret".to_string() }
}

fn store_with_running_job(pattern: &str, position: VanityPosition) -> JobStore {
    let mut store = JobStore::new();
    store.insert_at("job", VanityRequest { pattern: pattern.to_string(), position }, 0);
    begin(&mut store, "job").unwrap();
    store
}

#[test]
fn submit_with_pattern_of_length_2_or_9_is_rejected() {
    let mut store = JobStore::new();
    assert_eq!(submit(&mut store, "ab", "prefix"), Err(RequestError::PatternTooShort));
    assert_eq!(submit(&mut store, "abcdefghi", "prefix"), Err(RequestError::PatternTooLong));
    assert_eq!(submit(&mut store, "ab", "suffix"), Err(RequestError::PatternTooShort));
    assert_eq!(submit(&mut store, "abcdefghi", "suffix"), Err(RequestError::PatternTooLong));
}

#[test]
fn submit_with_empty_pattern_is_rejected_with_its_own_text() {
    let mut store = JobStore::new();
    let refused = submit(&mut store, "", "prefix");
    assert_eq!(refused, Err(RequestError::EmptyPattern));
    assert_eq!(refused.unwrap_err().message(), "Pattern cannot be empty");
    assert_eq!(submit(&mut store, "", "nowhere"), Err(RequestError::EmptyPattern));
    assert_eq!(
        submit(&mut store, "a", "prefix").unwrap_err().message(),
        "Pattern must be between 3 and 8 characters long"
    );
}

#[test]
fn submit_with_unknown_position_is_rejected() {
    let mut store = JobStore::new();
    assert_eq!(submit(&mut store, "abc", "middle"), Err(RequestError::UnknownPosition));
    assert_eq!(submit(&mut store, "abc", "PREFIX"), Err(RequestError::UnknownPosition));
}

#[test]
fn submit_files_a_pending_job() {
    let mut store = JobStore::new();
    let id = submit(&mut store, "abc", "prefix").unwrap();
    assert_eq!(id.chars().count(), 36);
    let record = store.get(&id).unwrap();
    assert_eq!(record.status(), JobStatus::Pending);
    assert_eq!(record.request().pattern, "abc");
    assert_eq!(record.request().position, VanityPosition::Prefix);
    let id = submit(&mut store, "abcdefgh", "suffix").unwrap();
    let record = store.get(&id).unwrap();
    assert_eq!(record.request().pattern, "abcdefgh");
    assert_eq!(record.request().position, VanityPosition::Suffix);
}

#[test]
fn begin_starts_a_pending_job_once() {
    let mut store = JobStore::new();
    let id = submit(&mut store, "abc", "suffix").unwrap();
    let started = begin(&mut store, &id).unwrap();
    assert_eq!(started.request.pattern, "abc");
    assert_eq!(started.request.position, VanityPosition::Suffix);
    assert!(!started.cancel.is_requested());
    assert_eq!(store.get(&id).unwrap().status(), JobStatus::Running);
    assert_eq!(begin(&mut store, &id).err(), Some(JobError::NotPending));
    assert_eq!(store.get(&id).unwrap().status(), JobStatus::Running);
    assert_eq!(begin(&mut store, "missing").err(), Some(JobError::NotFound));
    assert!(store.get("missing").is_none());
}

#[test]
fn begin_hands_out_the_jobs_own_signal() {
    let mut store = JobStore::new();
    let id = submit(&mut store, "abc", "suffix").unwrap();
    let started = begin(&mut store, &id).unwrap();
    store.request_cancel(&id).unwrap();
    assert!(started.cancel.is_requested());
}

#[test]
fn finish_writes_a_match() {
    let mut store = store_with_running_job("abc", VanityPosition::Prefix);
    let status = finish(&mut store, "job", JobOutcome::Found(found("AbC9")));
    assert_eq!(status, Ok(JobStatus::Complete));
    let record = store.get("job").unwrap();
    assert_eq!(record.status(), JobStatus::Complete);
    assert_eq!(*record.result(), Some(found("AbC9")));
    assert_eq!(*record.error(), None);
}

#[test]
fn finish_turns_a_mismatch_into_an_error() {
    let mut store = store_with_running_job("abc", VanityPosition::Prefix);
    let status = finish(&mut store, "job", JobOutcome::Found(found("9abc")));
    assert_eq!(status, Ok(JobStatus::Error));
    let record = store.get("job").unwrap();
    assert_eq!(record.status(), JobStatus::Error);
    assert_eq!(*record.result(), None);
    assert_eq!(
        *record.error(),
        Some("Search returned an address that does not match the request".to_string())
    );
}

#[test]
fn finish_writes_a_timeout() {
    let mut store = store_with_running_job("abc", VanityPosition::Prefix);
    assert_eq!(finish(&mut store, "job", JobOutcome::TimedOut), Ok(JobStatus::Error));
    let record = store.get("job").unwrap();
    assert_eq!(*record.error(), Some("Generation timed out".to_string()));
    assert_eq!(*record.result(), None);
}

#[test]
fn finish_writes_a_cancellation() {
    let mut store = store_with_running_job("abc", VanityPosition::Prefix);
    assert_eq!(finish(&mut store, "job", JobOutcome::Cancelled), Ok(JobStatus::Cancelled));
    let record = store.get("job").unwrap();
    assert_eq!(record.status(), JobStatus::Cancelled);
    assert_eq!(*record.error(), None);
    assert_eq!(*record.result(), None);
}

#[test]
fn finish_writes_attempts_that_ran_out() {
    let mut store = store_with_running_job("abc", VanityPosition::Prefix);
    assert_eq!(finish(&mut store, "job", JobOutcome::Exhausted), Ok(JobStatus::Error));
    let record = store.get("job").unwrap();
    assert_eq!(*record.error(), Some("Generation gave up after its last attempt".to_string()));
    assert_eq!(*record.result(), None);
}

#[test]
fn process_without_deadline_never_records_a_timeout() {
    let mut store = JobStore::new();
    let id = submit(&mut store, "abc", "prefix").unwrap();
    let limits = SearchLimits { timeout_secs: None, max_attempts: 0, workers: Some(1) };
    assert_eq!(process(&mut store, &id, &limits), Ok(JobStatus::Error));
    let record = store.get(&id).unwrap();
    assert_eq!(*record.error(), Some("Generation gave up after its last attempt".to_string()));
    assert_ne!(*record.error(), Some("Generation timed out".to_string()));
}

#[test]
fn finish_writes_a_task_failure() {
    let mut store = store_with_running_job("abc", VanityPosition::Prefix);
    assert_eq!(finish(&mut store, "job", JobOutcome::Failed), Ok(JobStatus::Error));
    let record = store.get("job").unwrap();
    assert_eq!(*record.error(), Some("Task was canceled".to_string()));
}

#[test]
fn finish_leaves_other_jobs_alone() {
    let mut store = JobStore::new();
    assert_eq!(finish(&mut store, "job", JobOutcome::Cancelled), Err(JobError::NotFound));
    assert!(store.get("job").is_none());
    let id = submit(&mut store, "abc", "prefix").unwrap();
    assert_eq!(finish(&mut store, &id, JobOutcome::Cancelled), Err(JobError::NotRunning));
    assert_eq!(store.get(&id).unwrap().status(), JobStatus::Pending);
    begin(&mut store, &id).unwrap();
    finish(&mut store, &id, JobOutcome::Found(found("abcd"))).unwrap();
    assert_eq!(finish(&mut store, &id, JobOutcome::TimedOut), Err(JobError::NotRunning));
    let record = store.get(&id).unwrap();
    assert_eq!(record.status(), JobStatus::Complete);
    assert_eq!(*record.result(), Some(found("abcd")));
    assert_eq!(*record.error(), None);
}

#[test]
fn a_match_wins_over_a_cancellation_beside_it() {
    let mut store = store_with_running_job("xyz", VanityPosition::Suffix);
    store.request_cancel("job").unwrap();
    assert_eq!(
        finish(&mut store, "job", JobOutcome::Found(found("123xyZ"))),
        Ok(JobStatus::Complete)
    );
    let record = store.get("job").unwrap();
    assert!(record.cancel_requested());
    assert_eq!(*record.result(), Some(found("123xyZ")));
    assert_eq!(*record.error(), None);
}

#[test]
fn outcomes_of_search_results() {
    assert_eq!(outcome_from(Ok(found("abc"))), JobOutcome::Found(found("abc")));
    assert_eq!(outcome_from(Err(SearchError::Cancelled)), JobOutcome::Cancelled);
    assert_eq!(outcome_from(Err(SearchError::TimedOut)), JobOutcome::TimedOut);
    assert_eq!(outcome_from(Err(SearchError::Exhausted)), JobOutcome::Exhausted);
    assert_eq!(outcome_from(Err(SearchError::EmptyPattern)), JobOutcome::Failed);
}

#[test]
fn submit_abc_prefix_and_poll_until_complete() {
    let mut store = JobStore::new();
    let id = submit(&mut store, "abc", "prefix").unwrap();
    assert_eq!(store.get(&id).unwrap().status().name(), "pending");
    let status = process(&mut store, &id, &SearchLimits::unbounded()).unwrap();
    assert_eq!(status, JobStatus::Complete);
    let record = store.get(&id).unwrap();
    assert_eq!(record.status().name(), "complete");
    assert_eq!(*record.error(), None);
    let result = record.result().clone().unwrap();
    assert!(result.public_key.to_lowercase().starts_with("abc"));
    let keypair = solana_sdk::signature::Keypair::try_from_base58_string(&result.private_key)
        .unwrap();
    let address = solana_sdk::signature::Signer::pubkey(&keypair).to_string();
    assert_eq!(address, result.public_key);
}

#[test]
fn submit_xyz_suffix_and_cancel_immediately() {
    let mut store = JobStore::new();
    let id = submit(&mut store, "xyz", "suffix").unwrap();
    assert_eq!(store.request_cancel(&id), Ok(()));
    let status = process(&mut store, &id, &SearchLimits::unbounded()).unwrap();
    let record = store.get(&id).unwrap();
    assert_eq!(record.status(), status);
    assert!(status == JobStatus::Cancelled || status == JobStatus::Complete);
    assert_eq!(*record.error(), None);
    assert_eq!(record.result().is_some(), status == JobStatus::Complete);
    assert!(record.cancel_requested());
    assert_eq!(record.status().name(), "cancelled");
}

#[test]
fn process_with_a_passed_deadline_records_a_timeout() {
    let mut store = JobStore::new();
    let id = submit(&mut store, "abc", "prefix").unwrap();
    let status = process(&mut store, &id, &SearchLimits::with_timeout(0)).unwrap();
    assert_eq!(status, JobStatus::Error);
    let record = store.get(&id).unwrap();
    assert_eq!(*record.error(), Some("Generation timed out".to_string()));
    assert_eq!(*record.result(), None);
}

#[test]
fn process_leaves_other_jobs_alone() {
    let mut store = JobStore::new();
    let limits = SearchLimits::with_timeout(0);
    assert_eq!(process(&mut store, "missing", &limits), Err(JobError::NotFound));
    let id = submit(&mut store, "abc", "prefix").unwrap();
    process(&mut store, &id, &limits).unwrap();
    assert_eq!(process(&mut store, &id, &limits), Err(JobError::NotPending));
    assert_eq!(store.get(&id).unwrap().status(), JobStatus::Error);
}
