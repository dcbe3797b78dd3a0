use trekkie::management::{AuthorizedUser, Privilege};
use trekkie::routes::correlate::{
    correlate_run, finish_correlation, CorrelatePlease, CorrelateResponse, Correlation, Persisted,
};
use trekkie::routes::run::{SubmitTravelV1, SubmitTravelV2, LEGACY_CLOCK_OFFSET};
use trekkie::routes::ServerError;
use trekkie::telegrams::{Telegram, TelegramScope};
use trekkie::trekkie::{Run, RunState};

const OWNER_ID: u128 = 0xaa;
const RUN_ID: u128 = 0x77;

fn member(id: u128) -> AuthorizedUser {
    AuthorizedUser { id, privilege: Privilege::Member }
}

fn admin(id: u128) -> AuthorizedUser {
    AuthorizedUser { id, privilege: Privilege::Administrator }
}

fn open_run() -> Run {
    Run::open(
        RUN_ID,
        OWNER_ID,
        SubmitTravelV2 { line: 7, run: 12, region: 1, app_commit: String::new(), app_name: String::new() },
    )
}

fn finished_run() -> Run {
    let declared = SubmitTravelV1 {
        start: 100 + LEGACY_CLOCK_OFFSET,
        stop: 200 + LEGACY_CLOCK_OFFSET,
        line: 7,
        run: 12,
        region: 1,
    };
    Run::declared(RUN_ID, OWNER_ID, declared).unwrap()
}

fn request(window: Option<i64>) -> CorrelatePlease {
    CorrelatePlease { run_id: RUN_ID, corr_window: window }
}

fn telegram(id: i64, time: i64, line: Option<i32>, run_number: Option<i32>) -> Telegram {
    Telegram { id, time, region: 1, reporting_point: 40 + id as i32, line, run_number }
}

const NOTHING_NEW: CorrelateResponse = CorrelateResponse { success: true, new_raw_transmission_locations: 0 };

#[test]
fn a_finished_run_is_handed_out_for_matching() {
    let plan = correlate_run(Some(&finished_run()), &member(OWNER_ID), &request(Some(9)), 5);
    assert_eq!(
        plan,
        Ok(Correlation::Match {
            scope: TelegramScope { start: 100, end: 200, line: 7, run_number: 12 },
            window: 9,
        })
    );
}

#[test]
fn the_default_window_fills_in() {
    let plan = correlate_run(Some(&finished_run()), &member(OWNER_ID), &request(None), 5);
    assert_eq!(
        plan,
        Ok(Correlation::Match {
            scope: TelegramScope { start: 100, end: 200, line: 7, run_number: 12 },
            window: 5,
        })
    );
}

#[test]
fn a_missing_run_is_an_internal_error() {
    assert_eq!(correlate_run(None, &admin(1), &request(None), 5), Err(ServerError::InternalError));
}

#[test]
fn another_run_than_the_requested_is_an_internal_error() {
    let asked = CorrelatePlease { run_id: RUN_ID + 1, corr_window: None };
    assert_eq!(correlate_run(Some(&finished_run()), &admin(1), &asked, 5), Err(ServerError::InternalError));
}

#[test]
fn correlation_by_a_stranger_is_forbidden() {
    let plan = correlate_run(Some(&finished_run()), &member(OWNER_ID + 1), &request(None), 5);
    assert_eq!(plan, Err(ServerError::Forbidden));
    let mut done = finished_run();
    assert_eq!(finish_correlation(&mut done, Persisted::Inserted(1)), Ok(CorrelateResponse {
        success: true,
        new_raw_transmission_locations: 1,
    }));
    assert_eq!(correlate_run(Some(&done), &member(OWNER_ID + 1), &request(None), 5), Err(ServerError::Forbidden));
}

#[test]
fn correlation_by_an_administrator_goes_ahead() {
    let plan = correlate_run(Some(&finished_run()), &admin(OWNER_ID + 1), &request(None), 5);
    assert!(matches!(plan, Ok(Correlation::Match { .. })));
}

#[test]
fn an_open_run_cannot_be_correlated() {
    assert_eq!(correlate_run(Some(&open_run()), &member(OWNER_ID), &request(None), 5), Err(ServerError::Conflict));
    let mut run = open_run();
    let before = run.clone();
    assert_eq!(finish_correlation(&mut run, Persisted::Inserted(3)), Err(ServerError::Conflict));
    assert_eq!(run, before);
    assert_eq!(finish_correlation(&mut run, Persisted::Superseded), Err(ServerError::Conflict));
    assert_eq!(run, before);
}

#[test]
fn finishing_marks_the_run_and_reports_the_count() {
    let mut run = finished_run();
    let answer = finish_correlation(&mut run, Persisted::Inserted(17));
    assert_eq!(answer, Ok(CorrelateResponse { success: true, new_raw_transmission_locations: 17 }));
    assert!(run.correlated);
    assert!(run.finished);
    assert_eq!(run.state(), RunState::Correlated);
    assert_eq!((run.start_time, run.end_time), (100, 200));
}

#[test]
fn a_count_beyond_the_answer_range_is_capped() {
    let mut run = finished_run();
    let answer = finish_correlation(&mut run, Persisted::Inserted(usize::MAX)).unwrap();
    let expected = if (usize::MAX as u128) <= i64::MAX as u128 { usize::MAX as i64 } else { i64::MAX };
    assert_eq!(answer.new_raw_transmission_locations, expected);
}

#[test]
fn a_failure_leaves_the_run_unmarked() {
    let mut run = finished_run();
    let before = run.clone();
    assert_eq!(finish_correlation(&mut run, Persisted::Failed), Err(ServerError::InternalError));
    assert_eq!(run, before);
    assert!(!run.correlated);
}

#[test]
fn a_superseded_request_reports_nothing_new() {
    let mut run = finished_run();
    assert_eq!(finish_correlation(&mut run, Persisted::Superseded), Ok(NOTHING_NEW));
    assert!(run.correlated);
}

#[test]
fn correlating_twice_reports_nothing_new_the_second_time() {
    let mut run = finished_run();
    let caller = member(OWNER_ID);
    let first = correlate_run(Some(&run), &caller, &request(None), 5);
    assert!(matches!(first, Ok(Correlation::Match { .. })));
    assert_eq!(
        finish_correlation(&mut run, Persisted::Inserted(4)),
        Ok(CorrelateResponse { success: true, new_raw_transmission_locations: 4 })
    );
    let after_first = run.clone();
    let second = correlate_run(Some(&run), &caller, &request(Some(60)), 5);
    assert_eq!(second, Ok(Correlation::AlreadyCorrelated(NOTHING_NEW)));
    assert_eq!(run, after_first);
    let third = correlate_run(Some(&run), &admin(3), &request(None), 5);
    assert_eq!(third, Ok(Correlation::AlreadyCorrelated(NOTHING_NEW)));
}

#[test]
fn the_scope_of_a_run_is_its_boundaries_line_and_number() {
    assert_eq!(TelegramScope::of(&finished_run()), TelegramScope { start: 100, end: 200, line: 7, run_number: 12 });
}

#[test]
fn the_scope_covers_only_matching_telegrams() {
    let scope = TelegramScope { start: 100, end: 200, line: 7, run_number: 12 };
    assert!(scope.covers(&telegram(1, 100, Some(7), Some(12))));
    assert!(scope.covers(&telegram(2, 200, Some(7), Some(12))));
    assert!(scope.covers(&telegram(3, 150, Some(7), Some(12))));
    assert!(!scope.covers(&telegram(4, 99, Some(7), Some(12))));
    assert!(!scope.covers(&telegram(5, 201, Some(7), Some(12))));
    assert!(!scope.covers(&telegram(6, 150, Some(8), Some(12))));
    assert!(!scope.covers(&telegram(7, 150, Some(7), Some(13))));
    assert!(!scope.covers(&telegram(8, 150, None, Some(12))));
    assert!(!scope.covers(&telegram(9, 150, Some(7), None)));
}

#[test]
fn selection_keeps_the_covered_telegrams_in_order() {
    let scope = TelegramScope { start: 100, end: 200, line: 7, run_number: 12 };
    let offered = vec![
        telegram(1, 180, Some(7), Some(12)),
        telegram(2, 150, Some(9), Some(12)),
        telegram(3, 120, Some(7), Some(12)),
        telegram(4, 300, Some(7), Some(12)),
        telegram(5, 120, Some(7), Some(12)),
    ];
    let chosen = scope.select(&offered);
    assert_eq!(chosen, vec![offered[0], offered[2], offered[4]]);
    assert_eq!(scope.select(&vec![]), vec![]);
}

#[test]
fn an_inverted_scope_covers_nothing() {
    let scope = TelegramScope { start: 200, end: 100, line: 7, run_number: 12 };
    assert!(!scope.covers(&telegram(1, 150, Some(7), Some(12))));
}
