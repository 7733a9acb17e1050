use plotview::debounce::count_signals;
use plotview::debounce::Debouncer;

#[test]
fn first_event_emits() {
    let mut d = Debouncer::new(1000);
    assert!(d.observe(0));
}

#[test]
fn event_within_window_is_swallowed() {
    let mut d = Debouncer::new(1000);
    assert!(d.observe(0));
    assert!(!d.observe(500));
    assert!(!d.observe(1500));
}

#[test]
fn event_after_quiet_gap_emits_again() {
    let mut d = Debouncer::new(1000);
    assert!(d.observe(0));
    assert!(!d.observe(400));
    assert!(d.observe(2000));
}

#[test]
fn burst_within_window_collapses_to_one_signal() {
    let times: Vec<u64> = vec![0, 100, 200, 300, 900];
    assert_eq!(count_signals(&times, 1000), 1);
}

#[test]
fn spread_out_events_each_emit() {
    let times: Vec<u64> = vec![0, 2000, 4000, 6000];
    assert_eq!(count_signals(&times, 1000), 4);
}

#[test]
fn mixed_bursts_emit_once_per_burst() {
    let times: Vec<u64> = vec![0, 500, 3000, 3100, 3900];
    assert_eq!(count_signals(&times, 1000), 2);
}

#[test]
fn no_events_no_signals() {
    let times: Vec<u64> = Vec::new();
    assert_eq!(count_signals(&times, 1000), 0);
}
