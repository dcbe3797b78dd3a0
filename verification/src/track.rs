//! Imported tracks: what a GPX document holds, and which fixes it yields.
//!
//! A document is a list of tracks, a track a list of segments, a segment a
//! list of waypoints. Reading a batch keeps that order. A waypoint without
//! a timestamp is left out; a waypoint whose timestamp cannot be read spoils
//! the whole batch.

use crate::gps::{InsertGpsPoint, RealBits};
use crate::ids::Id;
use crate::time::{parse_naive_datetime, parsed_datetime};
use vstd::prelude::*;

verus! {

/// One point of a track, with its timestamp as the document renders it.
#[derive(Debug, Clone, PartialEq, Eq)]
pub struct Waypoint {
    pub time: Option<String>,
    pub lat: RealBits,
    pub lon: RealBits,
    pub elevation: Option<RealBits>,
    pub speed: Option<RealBits>,
    /// Position dilution of precision.
    pub pdop: Option<RealBits>,
    /// Vertical dilution of precision.
    pub vdop: Option<RealBits>,
}

#[derive(Debug, Clone, PartialEq, Eq)]
pub struct TrackSegment {
    pub points: Vec<Waypoint>,
}

#[derive(Debug, Clone, PartialEq, Eq)]
pub struct Track {
    pub segments: Vec<TrackSegment>,
}

#[derive(Debug, Clone, PartialEq, Eq)]
pub struct Gpx {
    pub tracks: Vec<Track>,
}

/// What becomes of one waypoint when a batch is read.
pub enum Reading {
    /// It carries no timestamp and is left out.
    Dropped,
    /// Its timestamp cannot be read: the batch is refused.
    Rejected,
    /// It yields this fix.
    Kept(InsertGpsPoint),
}

/// The layout of a waypoint's timestamp: date and time of day joined by
/// `T`, the fraction of the second counted in nanoseconds, a closing `Z`.
pub open spec fn track_time_format() -> Seq<char> {
    "%Y-%m-%dT%H:%M:%S.%fZ"@
}

/// The fix that `waypoint` yields for `run` at the time `timestamp`.
pub open spec fn fix_of(run: Id, waypoint: Waypoint, timestamp: i64) -> InsertGpsPoint {
    InsertGpsPoint {
        id: None,
        trekkie_run: run,
        timestamp,
        lat: waypoint.lat,
        lon: waypoint.lon,
        elevation: waypoint.elevation,
        accuracy: waypoint.pdop,
        vertical_accuracy: waypoint.vdop,
        bearing: None,
        speed: waypoint.speed,
    }
}

pub open spec fn read_waypoint(run: Id, waypoint: Waypoint) -> Reading {
    match waypoint.time {
        None => Reading::Dropped,
        Some(text) => match parsed_datetime(text@, track_time_format()) {
            None => Reading::Rejected,
            Some(timestamp) => Reading::Kept(fix_of(run, waypoint, timestamp)),
        },
    }
}

/// The waypoint carries a timestamp that cannot be read.
pub open spec fn is_rejected(waypoint: Waypoint) -> bool {
    waypoint.time is Some && parsed_datetime(waypoint.time->0@, track_time_format()) is None
}

/// The fixes that a list of waypoints yields, in order.
pub open spec fn fixes_of_points(run: Id, points: Seq<Waypoint>) -> Seq<InsertGpsPoint>
    decreases points.len(),
{
    if points.len() == 0 {
        Seq::empty()
    } else {
        let before = fixes_of_points(run, points.drop_last());
        match read_waypoint(run, points.last()) {
            Reading::Kept(fix) => before.push(fix),
            _ => before,
        }
    }
}

pub open spec fn fixes_of_segments(run: Id, segments: Seq<TrackSegment>) -> Seq<InsertGpsPoint>
    decreases segments.len(),
{
    if segments.len() == 0 {
        Seq::empty()
    } else {
        fixes_of_segments(run, segments.drop_last()) + fixes_of_points(
            run,
            segments.last().points@,
        )
    }
}

pub open spec fn fixes_of_tracks(run: Id, tracks: Seq<Track>) -> Seq<InsertGpsPoint>
    decreases tracks.len(),
{
    if tracks.len() == 0 {
        Seq::empty()
    } else {
        fixes_of_tracks(run, tracks.drop_last()) + fixes_of_segments(run, tracks.last().segments@)
    }
}

/// The fixes that a batch of documents yields, in order. A part of the
/// payload that is no GPX document stands in the batch as `None`.
pub open spec fn fixes_of_batch(run: Id, files: Seq<Option<Gpx>>) -> Seq<InsertGpsPoint>
    decreases files.len(),
{
    if files.len() == 0 {
        Seq::empty()
    } else {
        let before = fixes_of_batch(run, files.drop_last());
        match files.last() {
            Some(document) => before + fixes_of_tracks(run, document.tracks@),
            None => before,
        }
    }
}

pub open spec fn points_spoiled(points: Seq<Waypoint>) -> bool {
    exists|i: int| 0 <= i < points.len() && is_rejected(#[trigger] points[i])
}

pub open spec fn segments_spoiled(segments: Seq<TrackSegment>) -> bool {
    exists|i: int| 0 <= i < segments.len() && points_spoiled(#[trigger] segments[i].points@)
}

pub open spec fn tracks_spoiled(tracks: Seq<Track>) -> bool {
    exists|i: int| 0 <= i < tracks.len() && segments_spoiled(#[trigger] tracks[i].segments@)
}

pub open spec fn file_spoiled(file: Option<Gpx>) -> bool {
    match file {
        None => true,
        Some(document) => tracks_spoiled(document.tracks@),
    }
}

/// The batch holds something that is no GPX document, or a waypoint whose
/// timestamp cannot be read.
pub open spec fn batch_spoiled(files: Seq<Option<Gpx>>) -> bool {
    exists|i: int| 0 <= i < files.len() && file_spoiled(#[trigger] files[i])
}

/// The text layout in which a waypoint's timestamp is read.
pub fn time_format() -> (format: &'static str)
    ensures
        format@ == track_time_format(),
{
    "%Y-%m-%dT%H:%M:%S.%fZ"
}

/// Reads one waypoint.
pub fn waypoint_reading(run: Id, waypoint: &Waypoint) -> (r: Reading)
    ensures
        r == read_waypoint(run, *waypoint),
{
    match &waypoint.time {
        None => Reading::Dropped,
        Some(text) => match parse_naive_datetime(text.as_str(), time_format()) {
            Err(_) => Reading::Rejected,
            Ok(timestamp) => Reading::Kept(
                InsertGpsPoint {
                    id: None,
                    trekkie_run: run,
                    timestamp,
                    lat: waypoint.lat,
                    lon: waypoint.lon,
                    elevation: waypoint.elevation,
                    accuracy: waypoint.pdop,
                    vertical_accuracy: waypoint.vdop,
                    bearing: None,
                    speed: waypoint.speed,
                },
            ),
        },
    }
}

fn append_points(run: Id, points: &Vec<Waypoint>, fixes: &mut Vec<InsertGpsPoint>) -> (ok: bool)
    ensures
        ok == !points_spoiled(points@),
        ok ==> final(fixes)@ == old(fixes)@ + fixes_of_points(run, points@),
{
    let ghost start = fixes@;
    let mut i: usize = 0;
    while i < points.len()
        invariant
            i <= points.len(),
            fixes@ == start + fixes_of_points(run, points@.take(i as int)),
            forall|j: int| 0 <= j < i ==> !is_rejected(#[trigger] points[j]),
        decreases points.len() - i,
    {
        proof {
            let next = points@.take(i + 1);
            assert(next.drop_last() == points@.take(i as int));
            assert(next.last() == points[i as int]);
        }
        match waypoint_reading(run, &points[i]) {
            Reading::Dropped => {},
            Reading::Rejected => {
                return false;
            },
            Reading::Kept(fix) => {
                fixes.push(fix);
            },
        }
        i += 1;
    }
    assert(points@.take(i as int) == points@);
    true
}

fn append_segments(run: Id, segments: &Vec<TrackSegment>, fixes: &mut Vec<InsertGpsPoint>) -> (ok:
    bool)
    ensures
        ok == !segments_spoiled(segments@),
        ok ==> final(fixes)@ == old(fixes)@ + fixes_of_segments(run, segments@),
{
    let ghost start = fixes@;
    let mut i: usize = 0;
    while i < segments.len()
        invariant
            i <= segments.len(),
            fixes@ == start + fixes_of_segments(run, segments@.take(i as int)),
            forall|j: int| 0 <= j < i ==> !points_spoiled(#[trigger] segments[j].points@),
        decreases segments.len() - i,
    {
        proof {
            let next = segments@.take(i + 1);
            assert(next.drop_last() == segments@.take(i as int));
            assert(next.last() == segments[i as int]);
        }
        if !append_points(run, &segments[i].points, fixes) {
            return false;
        }
        i += 1;
    }
    assert(segments@.take(i as int) == segments@);
    true
}

fn append_tracks(run: Id, tracks: &Vec<Track>, fixes: &mut Vec<InsertGpsPoint>) -> (ok: bool)
    ensures
        ok == !tracks_spoiled(tracks@),
        ok ==> final(fixes)@ == old(fixes)@ + fixes_of_tracks(run, tracks@),
{
    let ghost start = fixes@;
    let mut i: usize = 0;
    while i < tracks.len()
        invariant
            i <= tracks.len(),
            fixes@ == start + fixes_of_tracks(run, tracks@.take(i as int)),
            forall|j: int| 0 <= j < i ==> !segments_spoiled(#[trigger] tracks[j].segments@),
        decreases tracks.len() - i,
    {
        proof {
            let next = tracks@.take(i + 1);
            assert(next.drop_last() == tracks@.take(i as int));
            assert(next.last() == tracks[i as int]);
        }
        if !append_segments(run, &tracks[i].segments, fixes) {
            return false;
        }
        i += 1;
    }
    assert(tracks@.take(i as int) == tracks@);
    true
}

/// Reads a batch of documents into the fixes it yields for `run`, or says
/// that the batch is spoiled.
pub fn read_batch(run: Id, files: &Vec<Option<Gpx>>) -> (r: Option<Vec<InsertGpsPoint>>)
    ensures
        match r {
            Some(fixes) => !batch_spoiled(files@) && fixes@ == fixes_of_batch(run, files@),
            None => batch_spoiled(files@),
        },
{
    let mut fixes: Vec<InsertGpsPoint> = Vec::new();
    let mut i: usize = 0;
    while i < files.len()
        invariant
            i <= files.len(),
            fixes@ == fixes_of_batch(run, files@.take(i as int)),
            forall|j: int| 0 <= j < i ==> !file_spoiled(#[trigger] files[j]),
        decreases files.len() - i,
    {
        proof {
            let next = files@.take(i + 1);
            assert(next.drop_last() == files@.take(i as int));
            assert(next.last() == files[i as int]);
        }
        match &files[i] {
            None => {
                return None;
            },
            Some(document) => {
                if !append_tracks(run, &document.tracks, &mut fixes) {
                    return None;
                }
            },
        }
        i += 1;
    }
    assert(files@.take(i as int) == files@);
    Some(fixes)
}

} // verus!
