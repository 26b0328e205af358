use fricu_server::load::{tally, LoadReport, DEFAULT_CONCURRENCY, LOAD_KEY};

#[test]
fn load_defaults() {
    assert_eq!(DEFAULT_CONCURRENCY, 10_000);
    assert_eq!(LOAD_KEY, "activities");
}

#[test]
fn tally_of_nothing() {
    let report = tally(&Vec::new(), 0);
    assert_eq!(report, LoadReport { total: 0, success: 0, failed: 0, elapsed_ms: 0 });
    assert!(report.passed());
}

#[test]
fn tally_counts_successes_and_failures() {
    let report = tally(&vec![true, false, true, true, false], 12);
    assert_eq!(report, LoadReport { total: 5, success: 3, failed: 2, elapsed_ms: 12 });
    assert!(!report.passed());
}

#[test]
fn one_failure_fails_the_run() {
    let mut outcomes = vec![true; 999];
    outcomes.push(false);
    let report = tally(&outcomes, 250);
    assert_eq!(report.total, 1000);
    assert_eq!(report.success, 999);
    assert_eq!(report.failed, 1);
    assert!(!report.passed());
}

#[test]
fn a_clean_run_passes() {
    let report = tally(&vec![true; 10_000], 1_500);
    assert_eq!(report, LoadReport { total: 10_000, success: 10_000, failed: 0, elapsed_ms: 1_500 });
    assert!(report.passed());
}

#[test]
fn counts_add_up() {
    let outcomes: Vec<bool> = (0..257).map(|i| i % 3 != 0).collect();
    let report = tally(&outcomes, 1);
    assert_eq!(report.success + report.failed, report.total);
    assert_eq!(report.failed, 86);
}
