use solana_vanity::clock::Deadline;
use solana_vanity::clock::Stopwatch;
use solana_vanity::signal::CancellationSignal;

#[test]
fn signal_starts_lowered_and_stays_raised() {
    let signal = CancellationSignal::new();
    assert!(!signal.is_requested());
    signal.request();
    assert!(signal.is_requested());
    signal.request();
    assert!(signal.is_requested());
}

#[test]
fn shared_handles_see_the_same_flag() {
    let signal = CancellationSignal::new();
    let other = signal.share();
    assert!(!other.is_requested());
    signal.request();
    assert!(other.is_requested());
    let unrelated = CancellationSignal::new();
    assert!(!unrelated.is_requested());
}

#[test]
fn deadline_without_bound_never_passes() {
    let deadline = Deadline::after(None);
    assert!(!deadline.has_passed());
    assert!(!deadline.is_over_at(0));
    assert!(!deadline.is_over_at(u64::MAX));
}

#[test]
fn deadline_of_zero_has_passed_at_once() {
    let deadline = Deadline::after(Some(0));
    assert!(deadline.has_passed());
    assert!(deadline.is_over_at(0));
}

#[test]
fn deadline_is_over_from_its_bound_on() {
    let deadline = Deadline::after(Some(30));
    assert!(!deadline.has_passed());
    assert!(!deadline.is_over_at(29));
    assert!(deadline.is_over_at(30));
    assert!(deadline.is_over_at(31));
}

#[test]
fn stopwatch_starts_at_zero() {
    let watch = Stopwatch::start();
    assert_eq!(watch.elapsed_secs(), 0);
}
