use concurrent_file_processor::config::ProcessingConfig;
use concurrent_file_processor::gate::{run_gate, AvailabilityGate, GateStep};

fn config(max_retries: u32, initial_ms: u64, max_sec: u64) -> ProcessingConfig {
    let mut c = ProcessingConfig::default();
    c.max_retries = max_retries;
    c.initial_retry_delay_ms = initial_ms;
    c.max_retry_delay_sec = max_sec;
    c
}

#[test]
fn gate_succeeds_on_third_attempt() {
    // Available at the third check: exactly two failed checks, delays 100 and 200.
    let c = config(10, 100, 2);
    let mut availability = vec![false, false, true];
    availability.extend(std::iter::repeat(false).take(7));
    let run = run_gate(&c, &availability);
    assert!(run.cleared);
    assert_eq!(run.checks_made, 3);
    assert_eq!(run.delays_ms, vec![100, 200]);
}

#[test]
fn gate_succeeds_immediately() {
    let c = config(3, 100, 2);
    let run = run_gate(&c, &vec![true, true, true]);
    assert!(run.cleared);
    assert_eq!(run.checks_made, 1);
    assert_eq!(run.delays_ms.len(), 0);
}

#[test]
fn gate_backoff_doubles_and_caps() {
    // Cap of 1 second: 100, 200, 400, 800, then 1000 from the fifth delay on.
    let c = config(8, 100, 1);
    let run = run_gate(&c, &vec![false; 8]);
    assert!(!run.cleared);
    assert_eq!(run.checks_made, 8);
    assert_eq!(run.delays_ms, vec![100, 200, 400, 800, 1000, 1000, 1000, 1000]);
}

#[test]
fn gate_initial_delay_above_cap_is_capped() {
    let c = config(3, 5000, 2);
    let run = run_gate(&c, &vec![false; 3]);
    assert!(!run.cleared);
    assert_eq!(run.delays_ms, vec![2000, 2000, 2000]);
}

#[test]
fn gate_retry_exhaustion() {
    // Never available: failure after exactly max_retries checks, never fewer or more.
    let c = config(5, 100, 2);
    let run = run_gate(&c, &vec![false; 5]);
    assert!(!run.cleared);
    assert_eq!(run.checks_made, 5);
    assert_eq!(run.delays_ms, vec![100, 200, 400, 800, 1600]);
}

#[test]
fn gate_zero_retries_never_checks() {
    let c = config(0, 100, 2);
    let run = run_gate(&c, &vec![]);
    assert!(!run.cleared);
    assert_eq!(run.checks_made, 0);
    assert_eq!(run.delays_ms.len(), 0);
}

#[test]
fn gate_locked_then_available() {
    // A writer holds the file for 250 ms, then releases it. Checks land at
    // 0 ms (locked), 100 ms (locked) and 300 ms (free): the run clears
    // within three attempts, with a cumulative wait of 300 ms — at least
    // the 250 ms hold, at most 700 ms.
    let c = config(10, 100, 2);
    let mut availability = vec![false, false, true];
    availability.extend(std::iter::repeat(false).take(7));
    let run = run_gate(&c, &availability);
    assert!(run.cleared);
    assert!(run.checks_made <= 3);
    let total_wait: u64 = run.delays_ms.iter().sum();
    assert!(total_wait >= 250);
    assert!(total_wait <= 700);
}

#[test]
fn gate_observe_reports_first_delay() {
    let c = config(10, 100, 2);
    let mut gate = AvailabilityGate::new(&c);
    assert!(gate.attempts_remaining());
    match gate.observe(false) {
        GateStep::Sleep { delay_ms } => assert_eq!(delay_ms, 100),
        GateStep::Proceed => panic!("gate must not clear on a failed check"),
    }
    match gate.observe(true) {
        GateStep::Proceed => {}
        GateStep::Sleep { .. } => panic!("gate must clear on an available file"),
    }
}
