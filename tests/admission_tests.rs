use rust_api_gateway::admission::{Admission, AdmissionController, Release, QUEUE_CAPACITY};
use rust_api_gateway::config::ReliabilityConfig;

#[test]
fn admits_up_to_rate_then_queues() {
    let mut c = AdmissionController::with_limits(2, 1000, 4);
    assert_eq!(c.arrive(1, 0), Admission::Admitted);
    assert_eq!(c.arrive(2, 0), Admission::Admitted);
    assert_eq!(c.arrive(3, 0), Admission::Queued);
    assert_eq!(c.waiting(), 1);
    assert_eq!(c.poll(10), None);
    assert_eq!(c.next_wakeup(), Some(1000));
}

#[test]
fn saturated_line_rejects_immediately() {
    let mut c = AdmissionController::with_limits(1, 1000, 2);
    assert_eq!(c.arrive(1, 0), Admission::Admitted);
    assert_eq!(c.arrive(2, 0), Admission::Queued);
    assert_eq!(c.arrive(3, 0), Admission::Queued);
    assert_eq!(c.arrive(4, 0), Admission::Rejected);
    assert_eq!(c.arrive(5, 1), Admission::Rejected);
    assert_eq!(c.waiting(), 2);
}

#[test]
fn queue_is_fifo_across_windows() {
    let mut c = AdmissionController::with_limits(1, 5000, 8);
    assert_eq!(c.arrive(1, 0), Admission::Admitted);
    assert_eq!(c.arrive(2, 1), Admission::Queued);
    assert_eq!(c.arrive(3, 2), Admission::Queued);
    assert_eq!(c.poll(1000), Some(Release::Proceed(2)));
    assert_eq!(c.poll(1000), None);
    assert_eq!(c.poll(2000), Some(Release::Proceed(3)));
    assert_eq!(c.poll(2000), None);
}

#[test]
fn waiting_request_times_out_at_deadline() {
    let mut c = AdmissionController::with_limits(1, 100, 8);
    assert_eq!(c.arrive(1, 0), Admission::Admitted);
    assert_eq!(c.arrive(2, 10), Admission::Queued);
    assert_eq!(c.arrive(3, 20), Admission::Queued);
    assert_eq!(c.next_wakeup(), Some(110));
    assert_eq!(c.poll(109), None);
    assert_eq!(c.poll(110), Some(Release::Expire(2)));
    assert_eq!(c.poll(120), Some(Release::Expire(3)));
    assert_eq!(c.waiting(), 0);
    assert_eq!(c.poll(130), None);
}

#[test]
fn arrival_with_waiters_does_not_jump_the_line() {
    let mut c = AdmissionController::with_limits(1, 10_000, 8);
    assert_eq!(c.arrive(1, 0), Admission::Admitted);
    assert_eq!(c.arrive(2, 0), Admission::Queued);
    // a new window has a slot, but request 2 is still waiting
    assert_eq!(c.arrive(3, 1500), Admission::Queued);
    assert_eq!(c.poll(1500), Some(Release::Proceed(2)));
}

#[test]
fn clock_never_runs_backwards() {
    let mut c = AdmissionController::with_limits(1, 100, 8);
    assert_eq!(c.arrive(1, 500), Admission::Admitted);
    assert_eq!(c.arrive(2, 0), Admission::Queued);
    assert_eq!(c.next_wakeup(), Some(600));
}

#[test]
fn configured_controller() {
    let cfg = ReliabilityConfig { rate_limit_per_sec: 100, timeout_ms: 1000 };
    let mut c = AdmissionController::new(&cfg);
    for i in 0..100u64 {
        assert_eq!(c.arrive(i, 0), Admission::Admitted);
    }
    assert_eq!(c.arrive(100, 0), Admission::Queued);
    assert_eq!(QUEUE_CAPACITY, 1024);
}
