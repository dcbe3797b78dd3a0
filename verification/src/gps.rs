//! GPS fixes and the boundaries that a trace gives its run.
//!
//! Coordinates and the other measured quantities are carried as the bit
//! patterns of IEEE-754 double precision numbers. The library moves them
//! from one record to the next and never computes with them.

use crate::ids::Id;
use crate::time::Timestamp;
use vstd::prelude::*;

verus! {

/// The 64 bits of a double precision number.
pub type RealBits = u64;

/// One stored location fix. A fix belongs to exactly one run and is never
/// changed; what orders a trace is the timestamp, not the order of arrival.
#[derive(Debug, Clone, Copy, PartialEq, Eq, Structural)]
pub struct GpsPoint {
    pub id: i64,
    pub trekkie_run: Id,
    pub timestamp: Timestamp,
    pub lat: RealBits,
    pub lon: RealBits,
    pub elevation: Option<RealBits>,
    pub accuracy: Option<RealBits>,
    pub vertical_accuracy: Option<RealBits>,
    pub bearing: Option<RealBits>,
    pub speed: Option<RealBits>,
}

/// A location fix that is about to be stored; the store numbers it.
#[derive(Debug, Clone, Copy, PartialEq, Eq, Structural)]
pub struct InsertGpsPoint {
    pub id: Option<i64>,
    pub trekkie_run: Id,
    pub timestamp: Timestamp,
    pub lat: RealBits,
    pub lon: RealBits,
    pub elevation: Option<RealBits>,
    pub accuracy: Option<RealBits>,
    pub vertical_accuracy: Option<RealBits>,
    pub bearing: Option<RealBits>,
    pub speed: Option<RealBits>,
}

/// A live fix as relayed to the downstream consumer of vehicle positions.
#[derive(Debug, Clone, Copy, PartialEq, Eq, Structural)]
pub struct GrpcGpsPoint {
    /// Milliseconds since the epoch.
    pub time: u64,
    pub id: i32,
    pub region: i64,
    pub lat: RealBits,
    pub lon: RealBits,
    pub line: i32,
    pub run: i32,
}

/// The `i`-th of `points` exists and belongs to `run`.
pub open spec fn in_trace(points: Seq<GpsPoint>, i: int, run: Id) -> bool {
    0 <= i < points.len() && points[i].trekkie_run == run
}

/// Among the first `n` points, some fix of `run` carries `t` and none is earlier.
pub open spec fn earliest_among(points: Seq<GpsPoint>, n: int, run: Id, t: Timestamp) -> bool {
    &&& exists|i: int| i < n && #[trigger] in_trace(points, i, run) && points[i].timestamp == t
    &&& forall|i: int| i < n && #[trigger] in_trace(points, i, run) ==> t <= points[i].timestamp
}

/// Among the first `n` points, some fix of `run` carries `t` and none is later.
pub open spec fn latest_among(points: Seq<GpsPoint>, n: int, run: Id, t: Timestamp) -> bool {
    &&& exists|i: int| i < n && #[trigger] in_trace(points, i, run) && points[i].timestamp == t
    &&& forall|i: int| i < n && #[trigger] in_trace(points, i, run) ==> points[i].timestamp <= t
}

/// `run` has at least one fix among `points`.
pub open spec fn has_trace(points: Seq<GpsPoint>, run: Id) -> bool {
    exists|i: int| in_trace(points, i, run)
}

/// `t` is the smallest timestamp of the fixes of `run`.
pub open spec fn is_earliest(points: Seq<GpsPoint>, run: Id, t: Timestamp) -> bool {
    earliest_among(points, points.len() as int, run, t)
}

/// `t` is the largest timestamp of the fixes of `run`.
pub open spec fn is_latest(points: Seq<GpsPoint>, run: Id, t: Timestamp) -> bool {
    latest_among(points, points.len() as int, run, t)
}

/// The earliest and latest timestamp among the fixes of `run`, whatever
/// order they arrived in; `None` where the run has no fix at all.
pub fn time_bounds(points: &Vec<GpsPoint>, run: Id) -> (r: Option<(Timestamp, Timestamp)>)
    ensures
        match r {
            None => !has_trace(points@, run),
            Some((lo, hi)) => is_earliest(points@, run, lo) && is_latest(points@, run, hi),
        },
{
    let mut found: Option<(Timestamp, Timestamp)> = None;
    let mut i: usize = 0;
    while i < points.len()
        invariant
            i <= points.len(),
            match found {
                None => forall|j: int| j < i ==> !in_trace(points@, j, run),
                Some((lo, hi)) => earliest_among(points@, i as int, run, lo) && latest_among(
                    points@,
                    i as int,
                    run,
                    hi,
                ),
            },
        decreases points.len() - i,
    {
        let p = &points[i];
        if p.trekkie_run == run {
            assert(in_trace(points@, i as int, run));
            found = match found {
                None => Some((p.timestamp, p.timestamp)),
                Some((lo, hi)) => {
                    let lo2: Timestamp = if p.timestamp < lo {
                        p.timestamp
                    } else {
                        lo
                    };
                    let hi2: Timestamp = if p.timestamp > hi {
                        p.timestamp
                    } else {
                        hi
                    };
                    Some((lo2, hi2))
                },
            };
        }
        i += 1;
    }
    found
}

/// The boundaries of a trace are unique and stand in order: a run that is
/// closed over them does not end before it starts.
pub proof fn bounds_are_ordered(
    points: Seq<GpsPoint>,
    run: Id,
    lo: Timestamp,
    hi: Timestamp,
    lo2: Timestamp,
    hi2: Timestamp,
)
    requires
        is_earliest(points, run, lo),
        is_latest(points, run, hi),
        is_earliest(points, run, lo2),
        is_latest(points, run, hi2),
    ensures
        lo <= hi,
        lo == lo2,
        hi == hi2,
        has_trace(points, run),
{
}

/// The boundaries of a trace do not depend on the order of arrival: swapping
/// two fixes changes neither.
pub proof fn bounds_ignore_arrival_order(
    points: Seq<GpsPoint>,
    a: int,
    b: int,
    run: Id,
    lo: Timestamp,
    hi: Timestamp,
)
    requires
        0 <= a < points.len(),
        0 <= b < points.len(),
        is_earliest(points, run, lo),
        is_latest(points, run, hi),
    ensures
        is_earliest(points.update(a, points[b]).update(b, points[a]), run, lo),
        is_latest(points.update(a, points[b]).update(b, points[a]), run, hi),
{
    let swapped = points.update(a, points[b]).update(b, points[a]);
    let pos = |i: int| if i == a { b } else if i == b { a } else { i };
    assert forall|i: int| #[trigger] in_trace(swapped, i, run) implies in_trace(
        points,
        pos(i),
        run,
    ) && swapped[i] == points[pos(i)] by {}
    assert forall|i: int| #[trigger] in_trace(points, i, run) implies in_trace(
        swapped,
        pos(i),
        run,
    ) && swapped[pos(i)] == points[i] by {}
    let i_lo = choose|i: int|
        i < points.len() && #[trigger] in_trace(points, i, run) && points[i].timestamp == lo;
    assert(in_trace(swapped, pos(i_lo), run));
    let i_hi = choose|i: int|
        i < points.len() && #[trigger] in_trace(points, i, run) && points[i].timestamp == hi;
    assert(in_trace(swapped, pos(i_hi), run));
}

} // verus!
