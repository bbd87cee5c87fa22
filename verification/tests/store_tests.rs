use solana_vanity::clock::NANOS_PER_SEC;
use solana_vanity::job::JobStatus;
use solana_vanity::store::JobError;
use solana_vanity::store::JobStore;
use solana_vanity::store::JOB_ID_LEN;
use solana_vanity::store::RETENTION_SECS;
use solana_vanity::store::SWEEP_INTERVAL_SECS;
use solana_vanity::supervisor::begin;
use solana_vanity::VanityPosition;
use solana_vanity::VanityRequest;
use solana_vanity::VanityResult;

fn prefix_request(pattern: &str) -> VanityRequest {
    VanityRequest { pattern: pattern.to_string(), position: VanityPosition::Prefix }
}

fn found(address: &str) -> VanityResult {
    VanityResult { public_key: address.to_string(), private_key: "secret".to_string() }
}

#[test]
fn retention_constants() {
    assert_eq!(RETENTION_SECS, 24 * 60 * 60);
    assert_eq!(SWEEP_INTERVAL_SECS, 60 * 60);
    assert_eq!(JOB_ID_LEN, 36);
}

#[test]
fn new_store_knows_no_job() {
    let store = JobStore::new();
    assert!(store.get("anything").is_none());
    assert!(store.get("").is_none());
    store.invariant_holds();
}

#[test]
fn insert_files_a_pending_record() {
    let mut store = JobStore::new();
    let id = store.insert(prefix_request("abc"));
    let record = store.get(&id).unwrap();
    assert_eq!(record.id(), &id);
    assert_eq!(record.status(), JobStatus::Pending);
    assert_eq!(record.request().pattern, "abc");
    assert_eq!(record.request().position, VanityPosition::Prefix);
    assert_eq!(*record.result(), None);
    assert_eq!(*record.error(), None);
    assert!(!record.cancel_requested());
    assert!(record.created_at() <= store.now());
}

#[test]
fn job_ids_are_random_uuids() {
    let mut store = JobStore::new();
    let first = store.insert(prefix_request("abc"));
    let second = store.insert(prefix_request("abc"));
    assert_ne!(first, second);
    assert_eq!(first.chars().count(), JOB_ID_LEN);
    let parsed = uuid::Uuid::parse_str(&first).unwrap();
    assert_eq!(parsed.get_version_num(), 4);
    assert_eq!(parsed.to_string(), first);
    assert!(store.get(&first).is_some());
    assert!(store.get(&second).is_some());
}

#[test]
fn insert_at_uses_the_given_id_and_time() {
    let mut store = JobStore::new();
    store.insert_at("job-1", prefix_request("abc"), 42);
    let record = store.get("job-1").unwrap();
    assert_eq!(record.id(), "job-1");
    assert_eq!(record.created_at(), 42);
    assert_eq!(record.status(), JobStatus::Pending);
    assert!(store.get("job-2").is_none());
    assert!(store.get("job-").is_none());
}

#[test]
fn get_returns_a_snapshot() {
    let mut store = JobStore::new();
    store.insert_at("job-1", prefix_request("abc"), 1);
    let before = store.get("job-1").unwrap();
    store.set_running("job-1");
    assert_eq!(before.status(), JobStatus::Pending);
    assert_eq!(store.get("job-1").unwrap().status(), JobStatus::Running);
}

#[test]
fn cancel_of_unknown_job_is_not_found() {
    let mut store = JobStore::new();
    assert_eq!(store.request_cancel("missing"), Err(JobError::NotFound));
    assert!(store.get("missing").is_none());
    store.insert_at("job-1", prefix_request("abc"), 1);
    assert_eq!(store.request_cancel("missing"), Err(JobError::NotFound));
    assert!(store.get("missing").is_none());
    assert!(!store.get("job-1").unwrap().cancel_requested());
}

#[test]
fn cancel_of_removed_job_is_not_found() {
    let mut store = JobStore::new();
    store.insert_at("job-1", prefix_request("abc"), 1);
    assert!(store.remove("job-1"));
    assert!(!store.remove("job-1"));
    assert_eq!(store.request_cancel("job-1"), Err(JobError::NotFound));
    assert!(store.get("job-1").is_none());
}

#[test]
fn cancel_only_signals_intent() {
    let mut store = JobStore::new();
    store.insert_at("job-1", prefix_request("abc"), 1);
    store.insert_at("job-2", prefix_request("abc"), 1);
    let signal = begin(&mut store, "job-1").unwrap().cancel;
    let other_signal = begin(&mut store, "job-2").unwrap().cancel;
    assert!(!signal.is_requested());
    assert_eq!(store.request_cancel("job-1"), Ok(()));
    let record = store.get("job-1").unwrap();
    assert!(record.cancel_requested());
    assert_eq!(record.status(), JobStatus::Running);
    assert_eq!(*record.result(), None);
    assert_eq!(*record.error(), None);
    assert!(signal.is_requested());
    let other = store.get("job-2").unwrap();
    assert!(!other.cancel_requested());
    assert_eq!(other.status(), JobStatus::Running);
    assert!(!other_signal.is_requested());
}

#[test]
fn cancel_twice_is_the_same_as_once() {
    let mut once = JobStore::new();
    once.insert_at("job-1", prefix_request("abc"), 1);
    assert_eq!(once.request_cancel("job-1"), Ok(()));

    let mut twice = JobStore::new();
    twice.insert_at("job-1", prefix_request("abc"), 1);
    assert_eq!(twice.request_cancel("job-1"), Ok(()));
    assert_eq!(twice.request_cancel("job-1"), Ok(()));

    let a = once.get("job-1").unwrap();
    let b = twice.get("job-1").unwrap();
    assert_eq!(a.status(), b.status());
    assert_eq!(a.cancel_requested(), b.cancel_requested());
    assert_eq!(a.result(), b.result());
    assert_eq!(a.error(), b.error());
    assert_eq!(a.created_at(), b.created_at());
    assert_eq!(a.id(), b.id());
    assert_eq!(a.request(), b.request());
}

#[test]
fn cancel_of_ended_job_is_ignored() {
    let mut store = JobStore::new();
    store.insert_at("job-1", prefix_request("abc"), 1);
    let signal = begin(&mut store, "job-1").unwrap().cancel;
    store.set_complete("job-1", found("abcdef"));
    assert_eq!(store.request_cancel("job-1"), Ok(()));
    assert!(!signal.is_requested());
    let record = store.get("job-1").unwrap();
    assert_eq!(record.status(), JobStatus::Complete);
    assert_eq!(*record.result(), Some(found("abcdef")));
    assert!(!record.cancel_requested());
}

#[test]
fn status_only_moves_forward() {
    let mut store = JobStore::new();
    store.insert_at("job-1", prefix_request("abc"), 1);
    let mut seen = vec![store.get("job-1").unwrap().status()];
    store.set_running("job-1");
    seen.push(store.get("job-1").unwrap().status());
    store.request_cancel("job-1").unwrap();
    seen.push(store.get("job-1").unwrap().status());
    store.set_complete("job-1", found("ABC123"));
    seen.push(store.get("job-1").unwrap().status());
    store.request_cancel("job-1").unwrap();
    seen.push(store.get("job-1").unwrap().status());
    store.reap_at(100, 50);
    seen.push(store.get("job-1").unwrap().status());
    assert_eq!(
        seen,
        vec![
            JobStatus::Pending,
            JobStatus::Running,
            JobStatus::Running,
            JobStatus::Complete,
            JobStatus::Complete,
            JobStatus::Complete,
        ]
    );
}

#[test]
fn set_error_and_set_cancelled_end_the_job() {
    let mut store = JobStore::new();
    store.insert_at("job-1", prefix_request("abc"), 1);
    store.insert_at("job-2", prefix_request("abc"), 1);
    store.set_running("job-1");
    store.set_running("job-2");
    store.set_error("job-1", "Generation timed out".to_string());
    store.set_cancelled("job-2");
    let failed = store.get("job-1").unwrap();
    assert_eq!(failed.status(), JobStatus::Error);
    assert_eq!(*failed.error(), Some("Generation timed out".to_string()));
    assert_eq!(*failed.result(), None);
    let stopped = store.get("job-2").unwrap();
    assert_eq!(stopped.status(), JobStatus::Cancelled);
    assert_eq!(*stopped.error(), None);
    assert_eq!(*stopped.result(), None);
}

#[test]
fn sweep_removes_old_records_whatever_their_status() {
    let mut store = JobStore::new();
    store.insert_at("pending", prefix_request("abc"), 0);
    store.insert_at("running", prefix_request("abc"), 0);
    store.insert_at("complete", prefix_request("abc"), 0);
    store.insert_at("cancelled", prefix_request("abc"), 0);
    store.insert_at("error", prefix_request("abc"), 0);
    store.insert_at("young", prefix_request("abc"), 1);
    store.set_running("running");
    store.set_running("complete");
    store.set_complete("complete", found("abc"));
    store.set_running("cancelled");
    store.set_cancelled("cancelled");
    store.set_running("error");
    store.set_error("error", "Generation timed out".to_string());

    store.reap_at(RETENTION_SECS, RETENTION_SECS as u128 * NANOS_PER_SEC);
    for id in ["pending", "running", "complete", "cancelled", "error", "young"] {
        assert!(store.get(id).is_some());
    }

    store.reap_at(RETENTION_SECS, RETENTION_SECS as u128 * NANOS_PER_SEC + 1);
    for id in ["pending", "running", "complete", "cancelled", "error"] {
        assert!(store.get(id).is_none());
        assert_eq!(store.request_cancel(id), Err(JobError::NotFound));
    }
    let young = store.get("young").unwrap();
    assert_eq!(young.status(), JobStatus::Pending);
    assert_eq!(young.created_at(), 1);
}

#[test]
fn sweep_removes_a_record_half_a_second_over_the_window() {
    let window = RETENTION_SECS as u128 * NANOS_PER_SEC;
    let now = window + 7 * NANOS_PER_SEC;
    let mut store = JobStore::new();
    store.insert_at("a", prefix_request("abc"), now - window - NANOS_PER_SEC / 2);
    store.insert_at("b", prefix_request("abc"), now - window);
    store.insert_at("c", prefix_request("abc"), now - window + 1);
    store.reap_at(RETENTION_SECS, now);
    assert!(store.get("a").is_none());
    assert!(store.get("b").is_some());
    assert!(store.get("c").is_some());
    assert_eq!(store.get("b").unwrap().created_at(), now - window);
}

#[test]
fn sweep_ignores_records_from_the_future() {
    let mut store = JobStore::new();
    store.insert_at("job-1", prefix_request("abc"), 500);
    store.reap_at(0, 100);
    assert!(store.get("job-1").is_some());
    store.reap_at(0, 500);
    assert!(store.get("job-1").is_some());
    store.reap_at(0, 501);
    assert!(store.get("job-1").is_none());
}

#[test]
fn sweep_on_the_clock_keeps_fresh_records() {
    let mut store = JobStore::new();
    let id = store.insert(prefix_request("abc"));
    store.sweep();
    assert!(store.get(&id).is_some());
    store.reap_older_than(RETENTION_SECS);
    assert!(store.get(&id).is_some());
}

#[test]
fn sweep_of_many_records() {
    let mut store = JobStore::new();
    for n in 0..200u128 {
        store.insert_at(&format!("job-{}", n), prefix_request("abc"), n * NANOS_PER_SEC);
    }
    store.reap_at(50, 150 * NANOS_PER_SEC);
    for n in 0..200u128 {
        let present = store.get(&format!("job-{}", n)).is_some();
        assert_eq!(present, n >= 100);
    }
}
