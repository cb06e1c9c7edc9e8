use rdma_transport::timer::exp_to_ns;
use rdma_transport::timer::TimerExhausted;
use rdma_transport::timer::TransportTimer;

#[test]
fn exponent_encodes_nanoseconds() {
    assert_eq!(exp_to_ns(0), 4096);
    assert_eq!(exp_to_ns(4), 65_536);
    assert_eq!(exp_to_ns(8), 1_048_576);
}

#[test]
fn idle_timer_never_times_out() {
    let mut t = TransportTimer::new(4, 5);
    assert_eq!(t.check_timeout(u64::MAX), Ok(false));
    assert!(t.last_reset_ns.is_none());
}

#[test]
fn not_timed_out_before_deadline() {
    // Timeout exponent 4 is 65_536 ns. Checks strictly before the
    // deadline report "not timed out" and leave the budget alone.
    let mut t = TransportTimer::new(4, 5);
    t.reset(1_000);
    assert_eq!(t.check_timeout(1_000), Ok(false));
    assert_eq!(t.check_timeout(1_000 + 65_535), Ok(false));
    assert_eq!(t.retry_counter, 5);
}

#[test]
fn timed_out_at_deadline_spends_one_retry() {
    let mut t = TransportTimer::new(4, 5);
    t.reset(1_000);
    // The first check at or after the deadline reports the timeout,
    // spends exactly one retry, and restarts the accumulator at `now`.
    assert_eq!(t.check_timeout(1_000 + 65_536), Ok(true));
    assert_eq!(t.retry_counter, 4);
    assert_eq!(t.last_reset_ns, Some(1_000 + 65_536));
    // Immediately after the restart the timer is not expired again.
    assert_eq!(t.check_timeout(1_000 + 65_537), Ok(false));
    assert_eq!(t.retry_counter, 4);
}

#[test]
fn retry_exhaustion_yields_terminal_error() {
    // With an initial budget of 2, two consecutive timeouts succeed and
    // the next check at or after a further deadline is terminal.
    let mut t = TransportTimer::new(0, 2);
    t.reset(0);
    assert_eq!(t.check_timeout(4_096), Ok(true));
    assert_eq!(t.check_timeout(2 * 4_096), Ok(true));
    assert_eq!(t.retry_counter, 0);
    assert_eq!(t.check_timeout(3 * 4_096), Err(TimerExhausted));
    // The terminal error does not change the timer's state.
    assert_eq!(t.check_timeout(4 * 4_096), Err(TimerExhausted));
}

#[test]
fn reset_restores_retry_budget() {
    let mut t = TransportTimer::new(0, 3);
    t.reset(0);
    assert_eq!(t.check_timeout(4_096), Ok(true));
    assert_eq!(t.check_timeout(2 * 4_096), Ok(true));
    assert_eq!(t.retry_counter, 1);
    t.reset(10_000);
    assert_eq!(t.retry_counter, 3);
    assert_eq!(t.last_reset_ns, Some(10_000));
}

#[test]
fn backwards_clock_counts_as_no_elapsed_time() {
    let mut t = TransportTimer::new(4, 5);
    t.reset(1_000_000);
    assert_eq!(t.check_timeout(0), Ok(false));
    assert_eq!(t.retry_counter, 5);
}
