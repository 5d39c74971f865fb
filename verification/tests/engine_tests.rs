use gift_buyer::engine::{
    AttemptStatus, Command, EngineFailure, Event, Phase, PurchaseAttempt, PurchaseEngine,
};

/// Drives an engine to its end. `form_ok` and `confirm_ok` answer the n-th
/// form request and the n-th confirmation (counted from 0) of the whole run.
fn drive(
    engine: &mut PurchaseEngine,
    balance: Option<i64>,
    form_ok: &dyn Fn(usize) -> bool,
    confirm_ok: &dyn Fn(usize) -> bool,
) -> Vec<PurchaseAttempt> {
    let mut reports = Vec::new();
    let mut forms = 0usize;
    let mut confirms = 0usize;
    let mut steps = 0usize;
    loop {
        steps += 1;
        assert!(steps < 100_000);
        let event = match engine.command() {
            Command::FetchBalance => match balance {
                Some(b) => Event::BalanceFetched(b),
                None => Event::BalanceUnavailable,
            },
            Command::RequestForm { .. } => {
                forms += 1;
                if form_ok(forms - 1) {
                    Event::FormGranted
                } else {
                    Event::FormFailed
                }
            }
            Command::SubmitForm { .. } => {
                confirms += 1;
                if confirm_ok(confirms - 1) {
                    Event::Confirmed
                } else {
                    Event::ConfirmFailed
                }
            }
            Command::Finish | Command::Abort(_) => return reports,
        };
        if let Some(report) = engine.handle(event) {
            reports.push(report);
        }
    }
}

fn always(_: usize) -> bool {
    true
}

fn never(_: usize) -> bool {
    false
}

#[test]
fn rich_account_buys_up_to_the_limit() {
    let mut engine = PurchaseEngine::new(&vec![42], &vec![100], Some(2)).unwrap();
    let reports = drive(&mut engine, Some(250), &always, &always);
    assert_eq!(
        reports,
        vec![
            PurchaseAttempt { item_id: 42, attempt: 1, balance_after: 150, status: AttemptStatus::Success },
            PurchaseAttempt { item_id: 42, attempt: 2, balance_after: 50, status: AttemptStatus::Success },
        ]
    );
    assert_eq!(engine.balance(), 50);
    assert_eq!(engine.phase(), Phase::Finished);
    assert_eq!(engine.command(), Command::Finish);
}

#[test]
fn poor_account_attempts_nothing() {
    let mut engine = PurchaseEngine::new(&vec![42], &vec![100], Some(2)).unwrap();
    let reports = drive(&mut engine, Some(50), &always, &always);
    assert_eq!(reports, vec![]);
    assert_eq!(engine.balance(), 50);
    assert_eq!(engine.phase(), Phase::Finished);
}

#[test]
fn account_stops_when_balance_runs_out() {
    let mut engine = PurchaseEngine::new(&vec![42], &vec![40], Some(2)).unwrap();
    let reports = drive(&mut engine, Some(50), &always, &always);
    assert_eq!(
        reports,
        vec![PurchaseAttempt { item_id: 42, attempt: 1, balance_after: 10, status: AttemptStatus::Success }]
    );
    assert_eq!(engine.balance(), 10);
}

#[test]
fn form_failures_use_up_the_limit_without_charging() {
    let mut engine = PurchaseEngine::new(&vec![7], &vec![10], Some(3)).unwrap();
    let reports = drive(&mut engine, Some(100), &never, &always);
    assert_eq!(reports.len(), 3);
    for (n, report) in reports.iter().enumerate() {
        assert_eq!(report.item_id, 7);
        assert_eq!(report.attempt, n as u64 + 1);
        assert_eq!(report.balance_after, 100);
        assert_eq!(report.status, AttemptStatus::FormError);
    }
    assert_eq!(engine.balance(), 100);
}

#[test]
fn confirmation_failure_does_not_charge() {
    let mut engine = PurchaseEngine::new(&vec![7], &vec![10], Some(3)).unwrap();
    let reports = drive(&mut engine, Some(25), &always, &|n| n != 1);
    assert_eq!(
        reports,
        vec![
            PurchaseAttempt { item_id: 7, attempt: 1, balance_after: 15, status: AttemptStatus::Success },
            PurchaseAttempt { item_id: 7, attempt: 2, balance_after: 15, status: AttemptStatus::ConfirmationError },
            PurchaseAttempt { item_id: 7, attempt: 3, balance_after: 5, status: AttemptStatus::Success },
        ]
    );
    assert_eq!(engine.balance(), 5);
}

#[test]
fn items_are_taken_in_the_given_order() {
    let mut engine = PurchaseEngine::new(&vec![3, 1, 2], &vec![30, 500, 20], Some(1)).unwrap();
    let reports = drive(&mut engine, Some(60), &always, &always);
    assert_eq!(
        reports,
        vec![
            PurchaseAttempt { item_id: 3, attempt: 1, balance_after: 30, status: AttemptStatus::Success },
            PurchaseAttempt { item_id: 2, attempt: 1, balance_after: 10, status: AttemptStatus::Success },
        ]
    );
}

#[test]
fn attempt_numbers_restart_with_each_item() {
    let mut engine = PurchaseEngine::new(&vec![1, 2], &vec![5, 5], Some(2)).unwrap();
    let reports = drive(&mut engine, Some(1000), &always, &always);
    let numbers: Vec<(i64, u64)> = reports.iter().map(|r| (r.item_id, r.attempt)).collect();
    assert_eq!(numbers, vec![(1, 1), (1, 2), (2, 1), (2, 2)]);
    assert_eq!(engine.balance(), 980);
}

#[test]
fn default_limit_is_one_hundred() {
    let mut engine = PurchaseEngine::new(&vec![9], &vec![1], None).unwrap();
    let reports = drive(&mut engine, Some(1_000), &always, &always);
    assert_eq!(reports.len(), 100);
    assert_eq!(reports[99].attempt, 100);
    assert_eq!(engine.balance(), 900);
}

#[test]
fn zero_limit_attempts_nothing() {
    let mut engine = PurchaseEngine::new(&vec![9], &vec![1], Some(0)).unwrap();
    let reports = drive(&mut engine, Some(1_000), &always, &always);
    assert!(reports.is_empty());
    assert_eq!(engine.phase(), Phase::Finished);
}

#[test]
fn balance_never_rises_and_drops_only_on_success() {
    let mut engine = PurchaseEngine::new(&vec![1, 2, 3], &vec![7, 11, 13], Some(4)).unwrap();
    let mut last = 100i64;
    let reports = drive(&mut engine, Some(100), &|n| n % 3 != 0, &|n| n % 2 == 0);
    assert!(!reports.is_empty());
    for report in &reports {
        let price = match report.item_id {
            1 => 7,
            2 => 11,
            _ => 13,
        };
        if report.status == AttemptStatus::Success {
            assert_eq!(report.balance_after, last - price);
        } else {
            assert_eq!(report.balance_after, last);
        }
        assert!(report.attempt >= 1 && report.attempt <= 4);
        last = report.balance_after;
    }
    assert_eq!(engine.balance(), last);
}

#[test]
fn missing_balance_is_fatal() {
    let mut engine = PurchaseEngine::new(&vec![42], &vec![100], Some(2)).unwrap();
    assert_eq!(engine.command(), Command::FetchBalance);
    assert_eq!(engine.handle(Event::BalanceUnavailable), None);
    assert_eq!(engine.phase(), Phase::Failed(EngineFailure::BalanceUnavailable));
    assert_eq!(engine.command(), Command::Abort(EngineFailure::BalanceUnavailable));
}

#[test]
fn undeliverable_report_is_fatal() {
    let mut engine = PurchaseEngine::new(&vec![42], &vec![100], Some(2)).unwrap();
    engine.handle(Event::BalanceFetched(500));
    assert_eq!(engine.command(), Command::RequestForm { item_id: 42, attempt: 1 });
    engine.handle(Event::FormGranted);
    assert_eq!(engine.command(), Command::SubmitForm { item_id: 42, attempt: 1 });
    assert!(engine.handle(Event::Confirmed).is_some());
    assert_eq!(engine.handle(Event::ReportUndeliverable), None);
    assert_eq!(engine.command(), Command::Abort(EngineFailure::ReportUndeliverable));
    assert_eq!(engine.balance(), 400);
}

#[test]
fn unexpected_event_changes_nothing() {
    let mut engine = PurchaseEngine::new(&vec![42], &vec![100], Some(2)).unwrap();
    assert_eq!(engine.handle(Event::Confirmed), None);
    assert_eq!(engine.phase(), Phase::AwaitingBalance);
    engine.handle(Event::BalanceFetched(500));
    assert_eq!(engine.handle(Event::Confirmed), None);
    assert_eq!(engine.handle(Event::BalanceFetched(7)), None);
    assert_eq!(engine.phase(), Phase::AwaitingForm);
    assert_eq!(engine.balance(), 500);
}

#[test]
fn negative_price_is_refused() {
    assert!(PurchaseEngine::new(&vec![1, 2], &vec![5, -1], None).is_none());
    assert!(PurchaseEngine::new(&vec![1], &vec![5, -1], None).is_some());
    assert!(PurchaseEngine::new(&vec![1, 2], &vec![0, 0], None).is_some());
}
