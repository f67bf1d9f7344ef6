use log_forwarder::delivery::{run_attempts, Delivery, DeliveryStep};

#[test]
fn two_failures_then_success_delivers_once() {
    let mut d = Delivery::new(3, 1000);
    assert_eq!(d.record(false), DeliveryStep::RetryAfter(1000));
    assert_eq!(d.record(false), DeliveryStep::RetryAfter(1000));
    assert_eq!(d.record(true), DeliveryStep::Delivered);
    assert_eq!(d.failures(), 2);
    assert_eq!(run_attempts(&vec![false, false, true, true], 3, 1000), (3, true));
}

#[test]
fn always_failing_sink_gets_four_attempts_then_drop() {
    let mut d = Delivery::new(3, 250);
    for _ in 0..3 {
        assert_eq!(d.record(false), DeliveryStep::RetryAfter(250));
    }
    assert_eq!(d.record(false), DeliveryStep::Dropped);
    assert_eq!(run_attempts(&vec![false; 10], 3, 250), (4, false));
}

#[test]
fn zero_retries_drops_after_first_failure() {
    assert_eq!(run_attempts(&vec![false, true], 0, 5), (1, false));
    assert_eq!(run_attempts(&vec![true], 0, 5), (1, true));
}
