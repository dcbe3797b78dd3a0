//! The run registry and GPS ingestion: creating a run, feeding it fixes,
//! closing it.

use crate::gps::{has_trace, is_earliest, is_latest, time_bounds};
use crate::gps::{GpsPoint, GrpcGpsPoint, InsertGpsPoint, RealBits};
use crate::ids::{fresh_id, is_random_uuid, Id};
use crate::management::AuthorizedUser;
use crate::routes::ServerError;
use crate::time::{millis_of, timestamp_millis, Timestamp, EPOCH};
use crate::track::{batch_spoiled, fixes_of_batch, read_batch, Gpx};
use crate::trekkie::Run;
use crate::utils::{session_user, session_user_id};
use vstd::prelude::*;

verus! {

/// Declares a run whose boundaries the client already knows.
#[derive(Debug, Clone, Copy, PartialEq, Eq, Structural)]
pub struct SubmitTravelV1 {
    pub start: Timestamp,
    pub stop: Timestamp,
    pub line: i32,
    pub run: i32,
    pub region: i64,
}

/// Declares a run that is about to be tracked live.
#[derive(Debug, Clone, PartialEq, Eq)]
pub struct SubmitTravelV2 {
    pub line: i32,
    pub run: i32,
    pub region: i64,
    pub app_commit: String,
    pub app_name: String,
}

/// One live location fix as a client submits it.
#[derive(Debug, Clone, Copy, PartialEq, Eq, Structural)]
pub struct SubmitGpsPoint {
    pub timestamp: Timestamp,
    pub lat: RealBits,
    pub lon: RealBits,
    pub elevation: Option<RealBits>,
    pub accuracy: Option<RealBits>,
    pub vertical_accuracy: Option<RealBits>,
    pub bearing: Option<RealBits>,
    pub speed: Option<RealBits>,
}

/// Names the run that a declaration created.
#[derive(Debug, Clone, Copy, PartialEq, Eq, Structural)]
pub struct SubmitRun {
    pub trekkie_run: Id,
}

/// What an accepted live fix leads to: a row to store and a message to
/// relay, best effort, to the consumer of live positions.
#[derive(Debug, Clone, Copy, PartialEq, Eq, Structural)]
pub struct LiveSubmission {
    pub point: InsertGpsPoint,
    pub relay: GrpcGpsPoint,
}

/// Clients of the first interface report their boundaries two hours ahead
/// of the clock that telegrams are stamped with.
pub const LEGACY_CLOCK_OFFSET: i64 = 7_200_000_000;

/// The revision recorded for clients that do not report one.
pub open spec fn legacy_app_commit() -> Seq<char> {
    "0000000000000000000000000000000000000000"@
}

/// The application recorded for clients that do not report one.
pub open spec fn legacy_app_name() -> Seq<char> {
    "stasi"@
}

/// `run` is the open run that `measurement` declares for `owner` under `id`.
pub open spec fn is_opened(run: Run, id: Id, owner: Id, measurement: SubmitTravelV2) -> bool {
    &&& run.id == id
    &&& run.owner == owner
    &&& run.line == measurement.line
    &&& run.run == measurement.run
    &&& run.region == measurement.region
    &&& run.start_time == EPOCH
    &&& run.end_time == EPOCH
    &&& !run.finished
    &&& !run.correlated
    &&& run.app_commit == measurement.app_commit
    &&& run.app_name == measurement.app_name
}

/// The boundaries of `measurement` can be stored: they stand in order and
/// the clock correction keeps them within range.
pub open spec fn declares_boundaries(measurement: SubmitTravelV1) -> bool {
    &&& measurement.start <= measurement.stop
    &&& measurement.start - LEGACY_CLOCK_OFFSET >= i64::MIN
}

/// `run` is the finished run that `measurement` declares for `owner` under `id`.
pub open spec fn is_declared(run: Run, id: Id, owner: Id, measurement: SubmitTravelV1) -> bool {
    &&& run.id == id
    &&& run.owner == owner
    &&& run.line == measurement.line
    &&& run.run == measurement.run
    &&& run.region == measurement.region
    &&& run.start_time == measurement.start - LEGACY_CLOCK_OFFSET
    &&& run.end_time == measurement.stop - LEGACY_CLOCK_OFFSET
    &&& run.finished
    &&& !run.correlated
    &&& run.app_commit@ == legacy_app_commit()
    &&& run.app_name@ == legacy_app_name()
}

impl SubmitRun {
    /// The answer to the client that declared `run`.
    pub fn of(run: &Run) -> (r: SubmitRun)
        ensures
            r.trekkie_run == run.id,
    {
        SubmitRun { trekkie_run: run.id }
    }
}

impl Run {
    /// A new run in state `Open`: no boundaries, nothing recorded yet.
    pub fn open(id: Id, owner: Id, measurement: SubmitTravelV2) -> (run: Run)
        ensures
            is_opened(run, id, owner, measurement),
            run.well_formed(),
    {
        Run {
            id,
            start_time: EPOCH,
            end_time: EPOCH,
            line: measurement.line,
            run: measurement.run,
            region: measurement.region,
            owner,
            finished: false,
            correlated: false,
            app_commit: measurement.app_commit,
            app_name: measurement.app_name,
        }
    }

    /// A new run that enters the registry finished, with the boundaries its
    /// client declared, corrected by [`LEGACY_CLOCK_OFFSET`]. Boundaries that
    /// cannot be stored are the client's fault.
    pub fn declared(id: Id, owner: Id, measurement: SubmitTravelV1) -> (r: Result<
        Run,
        ServerError,
    >)
        ensures
            match r {
                Ok(run) => declares_boundaries(measurement) && is_declared(
                    run,
                    id,
                    owner,
                    measurement,
                ) && run.well_formed(),
                Err(e) => !declares_boundaries(measurement) && e == ServerError::BadClientData,
            },
    {
        if measurement.stop < measurement.start {
            return Err(ServerError::BadClientData);
        }
        if measurement.start < i64::MIN + LEGACY_CLOCK_OFFSET {
            return Err(ServerError::BadClientData);
        }
        Ok(
            Run {
                id,
                start_time: measurement.start - LEGACY_CLOCK_OFFSET,
                end_time: measurement.stop - LEGACY_CLOCK_OFFSET,
                line: measurement.line,
                run: measurement.run,
                region: measurement.region,
                owner,
                finished: true,
                correlated: false,
                app_commit: "0000000000000000000000000000000000000000".to_owned(),
                app_name: "stasi".to_owned(),
            },
        )
    }
}

/// Creates a finished run from declared boundaries, for the user that the
/// session names, under a fresh identifier.
pub fn travel_submit_run_v1(identity: Option<&str>, measurement: SubmitTravelV1) -> (r: Result<
    Run,
    ServerError,
>)
    ensures
        match r {
            Ok(run) => {
                &&& session_user(identity) is Ok
                &&& declares_boundaries(measurement)
                &&& is_declared(run, run.id, session_user(identity)->Ok_0, measurement)
                &&& is_random_uuid(run.id)
                &&& run.well_formed()
            },
            Err(e) => match session_user(identity) {
                Err(denied) => e == denied,
                Ok(_) => !declares_boundaries(measurement) && e == ServerError::BadClientData,
            },
        },
{
    let owner: Id = match session_user_id(identity) {
        Ok(id) => id,
        Err(e) => {
            return Err(e);
        },
    };
    Run::declared(fresh_id(), owner, measurement)
}

/// Creates an open run for the user that the session names, under a fresh
/// identifier. Every authenticated caller succeeds.
pub fn travel_submit_run_v2(identity: Option<&str>, measurement: SubmitTravelV2) -> (r: Result<
    Run,
    ServerError,
>)
    ensures
        match r {
            Ok(run) => {
                &&& session_user(identity) is Ok
                &&& is_opened(run, run.id, session_user(identity)->Ok_0, measurement)
                &&& is_random_uuid(run.id)
                &&& run.well_formed()
            },
            Err(e) => session_user(identity) == Err::<Id, ServerError>(e),
        },
{
    let owner: Id = match session_user_id(identity) {
        Ok(id) => id,
        Err(e) => {
            return Err(e);
        },
    };
    Ok(Run::open(fresh_id(), owner, measurement))
}

/// Why a request to close `run` is refused, `None` where it goes ahead.
///
/// In this order: the caller must own the run or be an administrator
/// (`Forbidden`); the run must still be open (`Conflict`); and it must have
/// at least one fix among `points`, or no boundaries can be derived
/// (`InternalError`).
pub open spec fn termination_refused(
    run: Run,
    caller: &AuthorizedUser,
    points: Seq<GpsPoint>,
) -> Option<ServerError> {
    if !run.spec_accessible_to(caller) {
        Some(ServerError::Forbidden)
    } else if run.finished {
        Some(ServerError::Conflict)
    } else if !has_trace(points, run.id) {
        Some(ServerError::InternalError)
    } else {
        None
    }
}

/// Closes an open run over the earliest and latest of its recorded fixes,
/// whatever order they arrived in.
///
/// A refused request leaves the run exactly as it was: its boundaries and
/// its flags are those it had.
pub fn terminate_run(run: &mut Run, caller: &AuthorizedUser, points: &Vec<GpsPoint>) -> (r: Result<
    (),
    ServerError,
>)
    ensures
        match termination_refused(*old(run), caller, points@) {
            Some(e) => r == Err::<(), ServerError>(e) && *final(run) == *old(run),
            None => {
                &&& r is Ok
                &&& is_earliest(points@, old(run).id, final(run).start_time)
                &&& is_latest(points@, old(run).id, final(run).end_time)
                &&& *final(run) == (*old(run)).closed(final(run).start_time, final(run).end_time)
            },
        },
        old(run).well_formed() ==> final(run).well_formed(),
        old(run).spec_state().leads_to(final(run).spec_state()),
{
    if !run.accessible_to(caller) {
        return Err(ServerError::Forbidden);
    }
    if run.finished {
        return Err(ServerError::Conflict);
    }
    match time_bounds(points, run.id) {
        None => Err(ServerError::InternalError),
        Some((start, end)) => {
            run.start_time = start;
            run.end_time = end;
            run.finished = true;
            Ok(())
        },
    }
}

/// The guards of closing a run. A run without any fix is never closed,
/// whoever asks: the request is refused and, being refused, sets no flag.
/// For a caller who may touch the run, closing a finished run is a
/// conflict whatever fixes there are, and closing an open run without fixes
/// is an internal error.
pub proof fn termination_guards(run: Run, caller: AuthorizedUser, points: Seq<GpsPoint>)
    ensures
        !has_trace(points, run.id) ==> termination_refused(run, &caller, points) is Some,
        points.len() == 0 ==> !has_trace(points, run.id),
        run.spec_accessible_to(&caller) && run.finished ==> termination_refused(
            run,
            &caller,
            points,
        ) == Some(ServerError::Conflict),
        run.spec_accessible_to(&caller) && !run.finished && !has_trace(points, run.id)
            ==> termination_refused(run, &caller, points) == Some(ServerError::InternalError),
{
}

/// The 64-bit unsigned reading of a millisecond count, as the relay's wire
/// format carries it: counts before the epoch wrap around.
pub open spec fn relay_time(t: Timestamp) -> int {
    if millis_of(t) >= 0 {
        millis_of(t)
    } else {
        millis_of(t) + 0x1_0000_0000_0000_0000
    }
}

/// The row that stores `gps_point` as a fix of the run `run`.
pub open spec fn live_point(run: Id, gps_point: SubmitGpsPoint) -> InsertGpsPoint {
    InsertGpsPoint {
        id: None,
        trekkie_run: run,
        timestamp: gps_point.timestamp,
        lat: gps_point.lat,
        lon: gps_point.lon,
        elevation: gps_point.elevation,
        accuracy: gps_point.accuracy,
        vertical_accuracy: gps_point.vertical_accuracy,
        bearing: gps_point.bearing,
        speed: gps_point.speed,
    }
}

/// The message that tells the live consumer where the vehicle of `run` is.
pub open spec fn live_relay(run: Run, gps_point: SubmitGpsPoint) -> GrpcGpsPoint {
    GrpcGpsPoint {
        time: relay_time(gps_point.timestamp) as u64,
        id: 0,
        region: run.region,
        lat: gps_point.lat,
        lon: gps_point.lon,
        line: run.line,
        run: run.run,
    }
}

/// What a live fix leads to: the caller must own the run or be an
/// administrator (`Forbidden`), and the run must not be finished
/// (`Conflict`).
pub open spec fn live_submission_of(
    run: Run,
    caller: &AuthorizedUser,
    gps_point: SubmitGpsPoint,
) -> Result<LiveSubmission, ServerError> {
    if !run.spec_accessible_to(caller) {
        Err(ServerError::Forbidden)
    } else if run.finished {
        Err(ServerError::Conflict)
    } else {
        Ok(LiveSubmission { point: live_point(run.id, gps_point), relay: live_relay(run, gps_point) })
    }
}

/// Accepts one live fix for an open run.
///
/// The answer holds the row to append to the run's trace and the message
/// to relay; relaying is best effort and its failure does not undo the fix.
pub fn submit_gps_live(run: &Run, caller: &AuthorizedUser, gps_point: &SubmitGpsPoint) -> (r:
    Result<LiveSubmission, ServerError>)
    ensures
        r == live_submission_of(*run, caller, *gps_point),
{
    if !run.accessible_to(caller) {
        return Err(ServerError::Forbidden);
    }
    if run.finished {
        return Err(ServerError::Conflict);
    }
    let millis: i64 = timestamp_millis(gps_point.timestamp);
    let time: u64 = if millis >= 0 {
        millis as u64
    } else {
        u64::MAX - ((-(millis + 1)) as u64)
    };
    Ok(
        LiveSubmission {
            point: InsertGpsPoint {
                id: None,
                trekkie_run: run.id,
                timestamp: gps_point.timestamp,
                lat: gps_point.lat,
                lon: gps_point.lon,
                elevation: gps_point.elevation,
                accuracy: gps_point.accuracy,
                vertical_accuracy: gps_point.vertical_accuracy,
                bearing: gps_point.bearing,
                speed: gps_point.speed,
            },
            relay: GrpcGpsPoint {
                time,
                id: 0,
                region: run.region,
                lat: gps_point.lat,
                lon: gps_point.lon,
                line: run.line,
                run: run.run,
            },
        },
    )
}

/// Accepts a batch of imported tracks for a run.
///
/// The caller must own the run or be an administrator (`Forbidden`). Each
/// part of the payload stands in `files`, `None` where it is no GPX
/// document. A waypoint without a timestamp is left out; a part that is no
/// document, or a timestamp that cannot be read, refuses the whole batch
/// (`BadClientData`). Otherwise the answer holds every fix of the batch, in
/// order, to be stored in one operation.
pub fn travel_file_upload(run: &Run, caller: &AuthorizedUser, files: &Vec<Option<Gpx>>) -> (r:
    Result<Vec<InsertGpsPoint>, ServerError>)
    ensures
        match r {
            Ok(fixes) => {
                &&& run.spec_accessible_to(caller)
                &&& !batch_spoiled(files@)
                &&& fixes@ == fixes_of_batch(run.id, files@)
            },
            Err(e) => if !run.spec_accessible_to(caller) {
                e == ServerError::Forbidden
            } else {
                batch_spoiled(files@) && e == ServerError::BadClientData
            },
        },
{
    if !run.accessible_to(caller) {
        return Err(ServerError::Forbidden);
    }
    match read_batch(run.id, files) {
        Some(fixes) => Ok(fixes),
        None => Err(ServerError::BadClientData),
    }
}

} // verus!
