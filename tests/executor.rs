use retry_block::memo::{AbsenceMemo, FailureMemo, Step};
use retry_block::notice::{absence_line, failure_line};
use retry_block::operation::RetryableResultFn;

#[derive(Debug, Clone, PartialEq)]
enum Fault {
    Refused,
    Timeout,
}

/// Drives `op` to success through `attempt`, giving up after `limit` attempts so that a broken
/// test cannot hang; returns the value and the report flag of each failed attempt.
fn drive<T, F: FnMut() -> Result<T, Fault>>(mut op: F, limit: usize) -> (T, Vec<bool>) {
    let mut memo = FailureMemo::new();
    let mut reports = Vec::new();
    for _ in 0..limit {
        match op.attempt(&mut memo) {
            Step::Done(v) => return (v, reports),
            Step::Retry { report } => reports.push(report),
        }
    }
    panic!("no success within {limit} attempts");
}

fn scripted(script: Vec<Result<u32, Fault>>) -> (u32, Vec<bool>, usize) {
    let mut calls = 0usize;
    let (v, reports) = drive(
        || {
            let r = script[calls].clone();
            calls += 1;
            r
        },
        100,
    );
    (v, reports, calls)
}

#[test]
fn eventual_success_after_failures() {
    let script = vec![Err(Fault::Refused), Err(Fault::Timeout), Err(Fault::Refused), Ok(42)];
    let (v, reports, calls) = scripted(script);
    assert_eq!(v, 42);
    assert_eq!(calls, 4);
    assert_eq!(reports.len(), 3);
}

#[test]
fn immediate_success_takes_one_attempt() {
    let (v, reports, calls) = scripted(vec![Ok(5), Err(Fault::Refused)]);
    assert_eq!(v, 5);
    assert_eq!(calls, 1);
    assert!(reports.is_empty());
}

#[test]
fn identical_failures_report_once() {
    let script = vec![Err(Fault::Refused), Err(Fault::Refused), Err(Fault::Refused), Ok(1)];
    let (v, reports, calls) = scripted(script);
    assert_eq!(v, 1);
    assert_eq!(calls, 4);
    assert_eq!(reports, vec![true, false, false]);
    assert_eq!(reports.iter().filter(|r| **r).count(), 1);
}

#[test]
fn changed_failure_reports_again() {
    let script = vec![Err(Fault::Refused), Err(Fault::Refused), Err(Fault::Timeout), Ok(2)];
    let (v, reports, _) = scripted(script);
    assert_eq!(v, 2);
    assert_eq!(reports, vec![true, false, true]);
    assert_eq!(reports.iter().filter(|r| **r).count(), 2);
}

#[test]
fn failure_returning_after_another_reports_again() {
    let script = vec![Err(Fault::Refused), Err(Fault::Timeout), Err(Fault::Refused), Ok(3)];
    let (_, reports, _) = scripted(script);
    assert_eq!(reports, vec![true, true, true]);
}

#[test]
fn one_invocation_per_attempt() {
    let mut calls = 0u32;
    let mut memo = FailureMemo::new();
    let mut op = || {
        calls += 1;
        if calls < 3 { Err(Fault::Timeout) } else { Ok(calls) }
    };
    assert!(matches!(op.attempt(&mut memo), Step::Retry { report: true }));
    assert!(matches!(op.attempt(&mut memo), Step::Retry { report: false }));
    assert!(matches!(op.attempt(&mut memo), Step::Done(3)));
    assert_eq!(calls, 3);
}

#[test]
fn memo_remembers_last_reported_failure() {
    let mut memo: FailureMemo<Fault> = FailureMemo::new();
    assert_eq!(memo.last_failure(), None);
    assert!(matches!(memo.settle::<u8>(Err(Fault::Refused)), Step::Retry { report: true }));
    assert_eq!(memo.last_failure(), Some(&Fault::Refused));
    assert!(matches!(memo.settle::<u8>(Err(Fault::Timeout)), Step::Retry { report: true }));
    assert_eq!(memo.last_failure(), Some(&Fault::Timeout));
    assert!(matches!(memo.settle::<u8>(Ok(7)), Step::Done(7)));
    assert_eq!(memo.last_failure(), Some(&Fault::Timeout));
}

#[test]
fn string_errors_compare_by_text() {
    let mut memo: FailureMemo<String> = FailureMemo::new();
    assert!(matches!(memo.settle::<u8>(Err("down".to_string())), Step::Retry { report: true }));
    assert!(matches!(memo.settle::<u8>(Err("down".to_string())), Step::Retry { report: false }));
    assert!(matches!(memo.settle::<u8>(Err("up?".to_string())), Step::Retry { report: true }));
}

#[test]
fn absence_reports_once_then_returns_value() {
    let script = [None, None, Some("ready")];
    let mut memo = AbsenceMemo::new();
    let mut reports = 0usize;
    let mut calls = 0usize;
    let value = loop {
        let outcome = script[calls];
        calls += 1;
        match memo.settle(outcome) {
            Step::Done(v) => break v,
            Step::Retry { report } => {
                if report {
                    reports += 1;
                }
            }
        }
        assert!(calls < 10);
    };
    assert_eq!(value, "ready");
    assert_eq!(calls, 3);
    assert_eq!(reports, 1);
}

#[test]
fn absence_memo_present_value_first() {
    let mut memo = AbsenceMemo::new();
    assert!(matches!(memo.settle(Some(4u8)), Step::Done(4)));
    assert!(matches!(memo.settle::<u8>(None), Step::Retry { report: true }));
}

#[test]
fn failure_line_with_site() {
    assert_eq!(
        failure_line(Some("src/main.rs:10:5"), "Refused"),
        "Error at src/main.rs:10:5: Refused, will block till success..."
    );
}

#[test]
fn failure_line_without_site() {
    assert_eq!(failure_line(None, "Timeout"), "Error: Timeout, will block till success...");
}

#[test]
fn failure_line_empty_detail() {
    assert_eq!(failure_line(None, ""), "Error: , will block till success...");
}

#[test]
fn absence_line_with_site() {
    assert_eq!(absence_line(Some("lib.rs:3:1")), "None at lib.rs:3:1, will block till Some...");
}

#[test]
fn absence_line_without_site() {
    assert_eq!(absence_line(None), "None, will block till Some...");
}
