//! Correlation of one run, and deduplication of all raw observations.
//!
//! Both operations alternate decisions with work that only the surrounding
//! server can do: queries, and the two numeric functions that match a trace
//! against telegrams and merge raw positions. Each operation is therefore
//! split where that work happens: a first function decides what is to be
//! done, a second takes what came of it and decides how the request ends.

use crate::canonical::{upserted_all, upserting_twice_changes_nothing, TransmissionLocation};
use crate::locations::{group_by_reporting_point, is_grouping, keys_in_order, rows_of};
use crate::locations::{Coordinates, LocationGroup, LocationKey, RawTransmissionLocation};
use crate::ids::Id;
use crate::management::AuthorizedUser;
use crate::routes::ServerError;
use crate::telegrams::TelegramScope;
use crate::trekkie::Run;
use vstd::prelude::*;

verus! {

/// Asks for the correlation of one run.
#[derive(Debug, Clone, Copy, PartialEq, Eq, Structural)]
pub struct CorrelatePlease {
    /// The run to correlate.
    pub run_id: Id,
    /// The largest gap, in seconds, between a telegram and the GPS fix it is
    /// matched to; the configured default where absent.
    pub corr_window: Option<i64>,
}

/// Answer to a correlation request.
#[derive(Debug, Clone, Copy, PartialEq, Eq, Structural)]
pub struct CorrelateResponse {
    pub success: bool,
    pub new_raw_transmission_locations: i64,
}

/// Answer to a deduplication request.
#[derive(Debug, Clone, Copy, PartialEq, Eq, Structural)]
pub struct UpdateAllLocationsResponse {
    /// Number of canonical positions written.
    pub rows_affected: usize,
}

/// What a correlation request leads to.
#[derive(Debug, Clone, Copy, PartialEq, Eq, Structural)]
pub enum Correlation {
    /// The run is correlated already: this is the answer, and nothing is
    /// to be read or written.
    AlreadyCorrelated(CorrelateResponse),
    /// Match the run's trace against the telegrams in `scope`, allowing
    /// `window` seconds between a telegram and its fix.
    Match { scope: TelegramScope, window: i64 },
}

/// What came of matching and storing.
#[derive(Debug, Clone, Copy, PartialEq, Eq, Structural)]
pub enum Persisted {
    /// A query, the matcher or the insert failed; nothing was written.
    Failed,
    /// Another request marked the run correlated first; nothing was written.
    Superseded,
    /// This request marked the run and stored that many observations.
    Inserted(usize),
}

/// The answer that reports `count` new observations.
pub open spec fn correlated_with(count: int) -> CorrelateResponse {
    CorrelateResponse {
        success: true,
        new_raw_transmission_locations: if count <= i64::MAX {
            count as i64
        } else {
            i64::MAX
        },
    }
}

/// The window that a request asks for.
pub open spec fn window_of(request: CorrelatePlease, default_window: i64) -> i64 {
    match request.corr_window {
        Some(window) => window,
        None => default_window,
    }
}

/// What a correlation request leads to, given the run that the store holds
/// under the requested identifier (`None` where it holds none).
pub open spec fn correlation_of(
    run: Option<&Run>,
    caller: &AuthorizedUser,
    request: CorrelatePlease,
    default_window: i64,
) -> Result<Correlation, ServerError> {
    match run {
        None => Err(ServerError::InternalError),
        Some(run) => if run.id != request.run_id {
            Err(ServerError::InternalError)
        } else if !run.spec_accessible_to(caller) {
            Err(ServerError::Forbidden)
        } else if run.correlated {
            Ok(Correlation::AlreadyCorrelated(correlated_with(0)))
        } else if !run.finished {
            Err(ServerError::Conflict)
        } else {
            Ok(
                Correlation::Match {
                    scope: TelegramScope::spec_of(run),
                    window: window_of(request, default_window),
                },
            )
        },
    }
}

/// How a correlation ends for a run, given what came of matching and storing.
pub open spec fn conclusion_of(run: Run, persisted: Persisted) -> Result<
    CorrelateResponse,
    ServerError,
> {
    match persisted {
        Persisted::Failed => Err(ServerError::InternalError),
        Persisted::Superseded => if run.finished {
            Ok(correlated_with(0))
        } else {
            Err(ServerError::Conflict)
        },
        Persisted::Inserted(count) => if run.finished {
            Ok(correlated_with(count as int))
        } else {
            Err(ServerError::Conflict)
        },
    }
}

/// Decides what a correlation request leads to.
///
/// In this order: the run must exist and be the one asked for
/// (`InternalError`); the caller must own it or be an administrator
/// (`Forbidden`); a run that is correlated already is answered at once with
/// zero new observations; a run that is still open cannot be correlated
/// (`Conflict`); otherwise the run's scope and the window are handed out
/// for matching.
pub fn correlate_run(
    run: Option<&Run>,
    caller: &AuthorizedUser,
    request: &CorrelatePlease,
    default_window: i64,
) -> (r: Result<Correlation, ServerError>)
    ensures
        r == correlation_of(run, caller, *request, default_window),
{
    let run = match run {
        Some(run) => run,
        None => {
            return Err(ServerError::InternalError);
        },
    };
    if run.id != request.run_id {
        return Err(ServerError::InternalError);
    }
    if !run.accessible_to(caller) {
        return Err(ServerError::Forbidden);
    }
    if run.correlated {
        return Ok(
            Correlation::AlreadyCorrelated(
                CorrelateResponse { success: true, new_raw_transmission_locations: 0 },
            ),
        );
    }
    if !run.finished {
        return Err(ServerError::Conflict);
    }
    let window: i64 = match request.corr_window {
        Some(window) => window,
        None => default_window,
    };
    Ok(Correlation::Match { scope: TelegramScope::of(run), window })
}

/// Concludes a correlation.
///
/// The run is marked correlated exactly when the request ends well, and it
/// ends well only if nothing failed on the way: a failure leaves the run as
/// it was, so that no run is ever marked without its observations stored.
pub fn finish_correlation(run: &mut Run, persisted: Persisted) -> (r: Result<
    CorrelateResponse,
    ServerError,
>)
    ensures
        r == conclusion_of(*old(run), persisted),
        r is Ok ==> *final(run) == (*old(run)).marked_correlated(),
        r is Err ==> *final(run) == *old(run),
        old(run).well_formed() ==> final(run).well_formed(),
        old(run).spec_state().leads_to(final(run).spec_state()),
{
    let count: usize = match persisted {
        Persisted::Failed => {
            return Err(ServerError::InternalError);
        },
        Persisted::Superseded => 0,
        Persisted::Inserted(count) => count,
    };
    if !run.finished {
        return Err(ServerError::Conflict);
    }
    run.correlated = true;
    let reported: i64 = if count as u64 <= i64::MAX as u64 {
        count as i64
    } else {
        i64::MAX
    };
    Ok(CorrelateResponse { success: true, new_raw_transmission_locations: reported })
}

/// Correlating is idempotent: once a correlation of a run has ended well,
/// every further request for that run by a caller who may touch it ends
/// well too, reports zero new observations, and asks for nothing to be
/// read, matched or stored.
pub proof fn correlating_again_is_a_no_op(
    run: Run,
    persisted: Persisted,
    caller: AuthorizedUser,
    request: CorrelatePlease,
    default_window: i64,
)
    requires
        conclusion_of(run, persisted) is Ok,
        run.spec_accessible_to(&caller),
        request.run_id == run.id,
    ensures
        correlation_of(Some(&run.marked_correlated()), &caller, request, default_window) == Ok::<
            Correlation,
            ServerError,
        >(Correlation::AlreadyCorrelated(correlated_with(0))),
        correlated_with(0).success,
        correlated_with(0).new_raw_transmission_locations == 0,
{
}

/// The positions to write for `groups`, given the estimate that merging
/// came to for each: one row for every group whose merge succeeded, under
/// the group's key, in the order of the groups. A group without estimate is
/// passed over.
pub open spec fn merged_rows(
    groups: Seq<LocationGroup>,
    estimates: Seq<Option<Coordinates>>,
) -> Seq<TransmissionLocation>
    recommends
        groups.len() == estimates.len(),
    decreases groups.len(),
{
    if groups.len() == 0 || estimates.len() == 0 {
        Seq::empty()
    } else {
        let before = merged_rows(groups.drop_last(), estimates.drop_last());
        match estimates.last() {
            Some(estimate) => before.push(
                TransmissionLocation {
                    region: groups.last().region,
                    reporting_point: groups.last().reporting_point,
                    lat: estimate.lat,
                    lon: estimate.lon,
                },
            ),
            None => before,
        }
    }
}

/// The rows that a deduplication of `raw` writes for the reporting points
/// `keys`, where merging is the function `merge` of a point's observations.
pub open spec fn merged_by(
    raw: Seq<RawTransmissionLocation>,
    keys: Seq<LocationKey>,
    merge: spec_fn(Seq<RawTransmissionLocation>) -> Option<Coordinates>,
) -> Seq<TransmissionLocation>
    decreases keys.len(),
{
    if keys.len() == 0 {
        Seq::empty()
    } else {
        let before = merged_by(raw, keys.drop_last(), merge);
        match merge(rows_of(raw, keys.last())) {
            Some(estimate) => before.push(
                TransmissionLocation {
                    region: keys.last().0,
                    reporting_point: keys.last().1,
                    lat: estimate.lat,
                    lon: estimate.lon,
                },
            ),
            None => before,
        }
    }
}

/// The canonical table after a deduplication of `raw`, where merging is
/// the function `merge`.
pub open spec fn deduplicated(
    table: Map<LocationKey, Coordinates>,
    raw: Seq<RawTransmissionLocation>,
    merge: spec_fn(Seq<RawTransmissionLocation>) -> Option<Coordinates>,
) -> Map<LocationKey, Coordinates> {
    upserted_all(table, merged_by(raw, keys_in_order(raw), merge))
}

/// Where every estimate is what `merge` makes of its group, the rows that
/// [`merged_locations`] hands out are those of the deduplication by `merge`.
pub proof fn merged_rows_follow_the_merge(
    raw: Seq<RawTransmissionLocation>,
    groups: Seq<LocationGroup>,
    estimates: Seq<Option<Coordinates>>,
    merge: spec_fn(Seq<RawTransmissionLocation>) -> Option<Coordinates>,
)
    requires
        is_grouping(raw, groups),
        estimates.len() == groups.len(),
        forall|g: int| 0 <= g < groups.len() ==> estimates[g] == merge(#[trigger] groups[g].rows@),
    ensures
        merged_rows(groups, estimates) == merged_by(raw, keys_in_order(raw), merge),
{
    let keys = keys_in_order(raw);
    assert forall|g: int| 0 <= g < groups.len() implies estimates[g] == merge(
        rows_of(raw, #[trigger] keys[g]),
    ) by {
        assert(groups[g].key() == keys[g]);
        assert(groups[g].rows@ == rows_of(raw, groups[g].key()));
    }
    merged_rows_follow_keys(raw, groups, estimates, keys, merge);
}

proof fn merged_rows_follow_keys(
    raw: Seq<RawTransmissionLocation>,
    groups: Seq<LocationGroup>,
    estimates: Seq<Option<Coordinates>>,
    keys: Seq<LocationKey>,
    merge: spec_fn(Seq<RawTransmissionLocation>) -> Option<Coordinates>,
)
    requires
        groups.len() == keys.len(),
        estimates.len() == keys.len(),
        forall|g: int| 0 <= g < groups.len() ==> (#[trigger] groups[g]).key() == keys[g],
        forall|g: int| 0 <= g < groups.len() ==> estimates[g] == merge(rows_of(raw, #[trigger] keys[g])),
    ensures
        merged_rows(groups, estimates) == merged_by(raw, keys, merge),
    decreases keys.len(),
{
    if keys.len() > 0 {
        let n = keys.len() - 1;
        assert forall|g: int| 0 <= g < n implies (#[trigger] groups.drop_last()[g]).key()
            == keys.drop_last()[g] by {
            assert(groups.drop_last()[g] == groups[g]);
        }
        assert forall|g: int| 0 <= g < n implies estimates.drop_last()[g] == merge(
            rows_of(raw, #[trigger] keys.drop_last()[g]),
        ) by {
            assert(keys.drop_last()[g] == keys[g]);
        }
        merged_rows_follow_keys(raw, groups.drop_last(), estimates.drop_last(), keys.drop_last(), merge);
        assert(groups[n].key() == keys[n]);
        assert(estimates[n] == merge(rows_of(raw, keys[n])));
    }
}

/// Deduplication is idempotent: run a second time over the same raw
/// observations, with the same merging, it leaves the canonical table as
/// the first run left it, entry for entry and bit for bit.
pub proof fn deduplicating_twice_changes_nothing(
    table: Map<LocationKey, Coordinates>,
    raw: Seq<RawTransmissionLocation>,
    merge: spec_fn(Seq<RawTransmissionLocation>) -> Option<Coordinates>,
)
    ensures
        deduplicated(deduplicated(table, raw, merge), raw, merge) == deduplicated(
            table,
            raw,
            merge,
        ),
{
    upserting_twice_changes_nothing(table, merged_by(raw, keys_in_order(raw), merge));
}

/// Opens a deduplication: groups every raw observation by reporting point.
///
/// Only administrators may ask for it (`Forbidden`), since it reads the
/// whole raw table. The raw observations themselves are never changed.
pub fn update_all_transmission_locations(
    caller: &AuthorizedUser,
    raw: &Vec<RawTransmissionLocation>,
) -> (r: Result<Vec<LocationGroup>, ServerError>)
    ensures
        match r {
            Ok(groups) => caller.spec_is_admin() && is_grouping(raw@, groups@),
            Err(e) => !caller.spec_is_admin() && e == ServerError::Forbidden,
        },
{
    if !caller.is_admin() {
        return Err(ServerError::Forbidden);
    }
    Ok(group_by_reporting_point(raw))
}

/// Turns the estimates that merging came to into the rows to write.
///
/// `estimates` answers `groups` place by place, `None` standing for a merge
/// that failed; such a group is skipped and the others go on. Estimates
/// that do not answer every group are a fault of the merging step
/// (`InternalError`).
pub fn merged_locations(groups: &Vec<LocationGroup>, estimates: &Vec<Option<Coordinates>>) -> (r:
    Result<Vec<TransmissionLocation>, ServerError>)
    ensures
        match r {
            Ok(rows) => groups.len() == estimates.len() && rows@ == merged_rows(
                groups@,
                estimates@,
            ),
            Err(e) => groups.len() != estimates.len() && e == ServerError::InternalError,
        },
{
    if groups.len() != estimates.len() {
        return Err(ServerError::InternalError);
    }
    let mut rows: Vec<TransmissionLocation> = Vec::new();
    let mut i: usize = 0;
    while i < groups.len()
        invariant
            i <= groups.len(),
            groups.len() == estimates.len(),
            rows@ == merged_rows(groups@.take(i as int), estimates@.take(i as int)),
        decreases groups.len() - i,
    {
        proof {
            let next_groups = groups@.take(i + 1);
            let next_estimates = estimates@.take(i + 1);
            assert(next_groups.drop_last() == groups@.take(i as int));
            assert(next_estimates.drop_last() == estimates@.take(i as int));
            assert(next_groups.last() == groups[i as int]);
            assert(next_estimates.last() == estimates[i as int]);
        }
        match estimates[i] {
            Some(estimate) => {
                rows.push(
                    TransmissionLocation {
                        region: groups[i].region,
                        reporting_point: groups[i].reporting_point,
                        lat: estimate.lat,
                        lon: estimate.lon,
                    },
                );
            },
            None => {},
        }
        i += 1;
    }
    assert(groups@.take(i as int) == groups@);
    assert(estimates@.take(i as int) == estimates@);
    Ok(rows)
}

impl UpdateAllLocationsResponse {
    /// The answer that reports `rows_affected` written positions.
    pub fn new(rows_affected: usize) -> (r: UpdateAllLocationsResponse)
        ensures
            r.rows_affected == rows_affected,
    {
        UpdateAllLocationsResponse { rows_affected }
    }
}

} // verus!
