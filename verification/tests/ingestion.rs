use trekkie::gps::{GrpcGpsPoint, InsertGpsPoint};
use trekkie::management::{AuthorizedUser, Privilege};
use trekkie::routes::run::{
    submit_gps_live, travel_file_upload, LiveSubmission, SubmitGpsPoint, SubmitTravelV1,
    SubmitTravelV2,
};
use trekkie::routes::ServerError;
use trekkie::time::timestamp_millis;
use trekkie::track::{read_batch, time_format, waypoint_reading, Gpx, Reading, Track, TrackSegment, Waypoint};
use trekkie::trekkie::Run;

const OWNER_ID: u128 = 0xaa;
const RUN_ID: u128 = 0x77;

fn member(id: u128) -> AuthorizedUser {
    AuthorizedUser { id, privilege: Privilege::Member }
}

fn admin(id: u128) -> AuthorizedUser {
    AuthorizedUser { id, privilege: Privilege::Administrator }
}

fn open_run() -> Run {
    Run::open(
        RUN_ID,
        OWNER_ID,
        SubmitTravelV2 { line: 7, run: 12, region: 1, app_commit: String::new(), app_name: String::new() },
    )
}

fn finished_run() -> Run {
    Run::declared(RUN_ID, OWNER_ID, SubmitTravelV1 { start: 10, stop: 20, line: 7, run: 12, region: 1 }).unwrap()
}

fn live(timestamp: i64) -> SubmitGpsPoint {
    SubmitGpsPoint {
        timestamp,
        lat: 51.0f64.to_bits(),
        lon: 13.5f64.to_bits(),
        elevation: Some(112.5f64.to_bits()),
        accuracy: Some(3.0f64.to_bits()),
        vertical_accuracy: None,
        bearing: Some(90.0f64.to_bits()),
        speed: Some(11.0f64.to_bits()),
    }
}

fn waypoint(time: Option<&str>, lat: f64) -> Waypoint {
    Waypoint {
        time: time.map(String::from),
        lat: lat.to_bits(),
        lon: 13.0f64.to_bits(),
        elevation: Some(200.0f64.to_bits()),
        speed: Some(4.0f64.to_bits()),
        pdop: Some(1.5f64.to_bits()),
        vdop: Some(2.5f64.to_bits()),
    }
}

fn document(segments: Vec<Vec<Waypoint>>) -> Gpx {
    Gpx { tracks: vec![Track { segments: segments.into_iter().map(|points| TrackSegment { points }).collect() }] }
}

fn fix(timestamp: i64, lat: f64) -> InsertGpsPoint {
    InsertGpsPoint {
        id: None,
        trekkie_run: RUN_ID,
        timestamp,
        lat: lat.to_bits(),
        lon: 13.0f64.to_bits(),
        elevation: Some(200.0f64.to_bits()),
        accuracy: Some(1.5f64.to_bits()),
        vertical_accuracy: Some(2.5f64.to_bits()),
        bearing: None,
        speed: Some(4.0f64.to_bits()),
    }
}

#[test]
fn a_live_fix_becomes_a_row_and_a_relay_message() {
    let accepted = submit_gps_live(&open_run(), &member(OWNER_ID), &live(1_677_931_200_123_456)).unwrap();
    assert_eq!(
        accepted,
        LiveSubmission {
            point: InsertGpsPoint {
                id: None,
                trekkie_run: RUN_ID,
                timestamp: 1_677_931_200_123_456,
                lat: 51.0f64.to_bits(),
                lon: 13.5f64.to_bits(),
                elevation: Some(112.5f64.to_bits()),
                accuracy: Some(3.0f64.to_bits()),
                vertical_accuracy: None,
                bearing: Some(90.0f64.to_bits()),
                speed: Some(11.0f64.to_bits()),
            },
            relay: GrpcGpsPoint {
                time: 1_677_931_200_123,
                id: 0,
                region: 1,
                lat: 51.0f64.to_bits(),
                lon: 13.5f64.to_bits(),
                line: 7,
                run: 12,
            },
        }
    );
}

#[test]
fn relay_time_before_the_epoch_wraps_around() {
    let accepted = submit_gps_live(&open_run(), &member(OWNER_ID), &live(-1)).unwrap();
    assert_eq!(accepted.relay.time, u64::MAX);
    let accepted = submit_gps_live(&open_run(), &member(OWNER_ID), &live(-1_000)).unwrap();
    assert_eq!(accepted.relay.time, u64::MAX);
    let accepted = submit_gps_live(&open_run(), &member(OWNER_ID), &live(-1_001)).unwrap();
    assert_eq!(accepted.relay.time, u64::MAX - 1);
    let accepted = submit_gps_live(&open_run(), &member(OWNER_ID), &live(i64::MIN)).unwrap();
    assert_eq!(accepted.relay.time, (i64::MIN.div_euclid(1000)) as u64);
}

#[test]
fn relay_time_agrees_with_chrono() {
    for micros in [0i64, 999, 1_000, 1_633_859_720_952_000, -1, -999, -1_000, -1_001, -86_400_000_001] {
        let moment = chrono::DateTime::from_timestamp_micros(micros).unwrap();
        let accepted = submit_gps_live(&open_run(), &member(OWNER_ID), &live(micros)).unwrap();
        assert_eq!(accepted.relay.time, moment.timestamp_millis() as u64);
        assert_eq!(timestamp_millis(micros), moment.timestamp_millis());
    }
}

#[test]
fn timestamp_millis_rounds_towards_the_past() {
    assert_eq!(timestamp_millis(0), 0);
    assert_eq!(timestamp_millis(999), 0);
    assert_eq!(timestamp_millis(1_000), 1);
    assert_eq!(timestamp_millis(-1), -1);
    assert_eq!(timestamp_millis(-1_000), -1);
    assert_eq!(timestamp_millis(-1_001), -2);
    assert_eq!(timestamp_millis(i64::MAX), 9_223_372_036_854_775);
    assert_eq!(timestamp_millis(i64::MIN), -9_223_372_036_854_776);
}

#[test]
fn a_live_fix_by_a_stranger_is_forbidden() {
    assert_eq!(submit_gps_live(&open_run(), &member(OWNER_ID + 1), &live(0)), Err(ServerError::Forbidden));
    assert_eq!(submit_gps_live(&finished_run(), &member(OWNER_ID + 1), &live(0)), Err(ServerError::Forbidden));
}

#[test]
fn a_live_fix_by_an_administrator_is_accepted() {
    assert!(submit_gps_live(&open_run(), &admin(OWNER_ID + 1), &live(0)).is_ok());
}

#[test]
fn a_live_fix_for_a_finished_run_is_a_conflict() {
    assert_eq!(submit_gps_live(&finished_run(), &member(OWNER_ID), &live(0)), Err(ServerError::Conflict));
    assert_eq!(submit_gps_live(&finished_run(), &admin(1), &live(0)), Err(ServerError::Conflict));
}

#[test]
fn the_time_format_is_fixed() {
    assert_eq!(time_format(), "%Y-%m-%dT%H:%M:%S.%fZ");
}

#[test]
fn a_waypoint_with_a_timestamp_yields_a_fix() {
    let reading = waypoint_reading(RUN_ID, &waypoint(Some("2021-10-10T09:55:20.952000000Z"), 51.5));
    match reading {
        Reading::Kept(kept) => assert_eq!(kept, fix(1_633_859_720_952_000, 51.5)),
        _ => panic!("the waypoint should have been kept"),
    }
}

#[test]
fn a_waypoint_timestamp_is_read_as_chrono_reads_it() {
    let text = "2023-03-04T12:00:00.000001000Z";
    let expected = chrono::NaiveDateTime::parse_from_str(text, "%Y-%m-%dT%H:%M:%S.%fZ")
        .unwrap()
        .and_utc()
        .timestamp_micros();
    assert_eq!(expected, 1_677_931_200_000_001);
    match waypoint_reading(RUN_ID, &waypoint(Some(text), 1.0)) {
        Reading::Kept(kept) => assert_eq!(kept.timestamp, expected),
        _ => panic!("the waypoint should have been kept"),
    }
}

#[test]
fn a_waypoint_without_timestamp_is_dropped() {
    assert!(matches!(waypoint_reading(RUN_ID, &waypoint(None, 1.0)), Reading::Dropped));
}

#[test]
fn a_waypoint_with_garbled_timestamp_is_rejected() {
    assert!(matches!(waypoint_reading(RUN_ID, &waypoint(Some("yesterday"), 1.0)), Reading::Rejected));
    assert!(matches!(waypoint_reading(RUN_ID, &waypoint(Some("2021-10-10T09:55:20Z"), 1.0)), Reading::Rejected));
    assert!(matches!(waypoint_reading(RUN_ID, &waypoint(Some(""), 1.0)), Reading::Rejected));
}

#[test]
fn a_batch_keeps_its_order_and_drops_untimed_waypoints() {
    let files = vec![
        Some(document(vec![
            vec![
                waypoint(Some("1970-01-01T00:00:03.000000000Z"), 3.0),
                waypoint(None, 99.0),
                waypoint(Some("1970-01-01T00:00:01.000000000Z"), 1.0),
            ],
            vec![waypoint(Some("1970-01-01T00:00:02.000000000Z"), 2.0)],
        ])),
        Some(Gpx { tracks: vec![] }),
        Some(document(vec![vec![], vec![waypoint(Some("1969-12-31T23:59:59.000000000Z"), 4.0)]])),
    ];
    let fixes = travel_file_upload(&open_run(), &member(OWNER_ID), &files).unwrap();
    assert_eq!(
        fixes,
        vec![fix(3_000_000, 3.0), fix(1_000_000, 1.0), fix(2_000_000, 2.0), fix(-1_000_000, 4.0)]
    );
}

#[test]
fn waypoints_after_an_untimed_one_are_still_read() {
    let files = vec![Some(document(vec![vec![
        waypoint(None, 0.0),
        waypoint(Some("1970-01-01T00:00:05.000000000Z"), 5.0),
    ]]))];
    assert_eq!(read_batch(RUN_ID, &files), Some(vec![fix(5_000_000, 5.0)]));
}

#[test]
fn a_garbled_timestamp_refuses_the_whole_batch() {
    let files = vec![
        Some(document(vec![vec![waypoint(Some("1970-01-01T00:00:01.000000000Z"), 1.0)]])),
        Some(document(vec![vec![waypoint(None, 2.0), waypoint(Some("1970-01-01 00:00:01"), 3.0)]])),
    ];
    assert_eq!(travel_file_upload(&open_run(), &member(OWNER_ID), &files), Err(ServerError::BadClientData));
    assert_eq!(read_batch(RUN_ID, &files), None);
}

#[test]
fn a_part_that_is_no_document_refuses_the_whole_batch() {
    let files = vec![Some(document(vec![vec![waypoint(Some("1970-01-01T00:00:01.000000000Z"), 1.0)]])), None];
    assert_eq!(travel_file_upload(&open_run(), &member(OWNER_ID), &files), Err(ServerError::BadClientData));
}

#[test]
fn an_empty_batch_yields_no_fix() {
    assert_eq!(travel_file_upload(&open_run(), &member(OWNER_ID), &vec![]), Ok(vec![]));
}

#[test]
fn a_batch_by_a_stranger_is_forbidden() {
    let files = vec![None];
    assert_eq!(travel_file_upload(&open_run(), &member(OWNER_ID + 1), &files), Err(ServerError::Forbidden));
}

#[test]
fn a_batch_is_accepted_for_a_finished_run() {
    let files = vec![Some(document(vec![vec![waypoint(Some("1970-01-01T00:00:01.000000000Z"), 1.0)]]))];
    assert_eq!(travel_file_upload(&finished_run(), &admin(5), &files), Ok(vec![fix(1_000_000, 1.0)]));
}
