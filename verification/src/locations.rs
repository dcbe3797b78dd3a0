//! Location guesses for reporting points: the raw observations that
//! correlation produces, and how they are grouped for deduplication.

use crate::gps::RealBits;
use crate::ids::Id;
use vstd::prelude::*;

verus! {

/// A latitude and a longitude, each carried by its bit pattern.
#[derive(Debug, Clone, Copy, PartialEq, Eq, Structural)]
pub struct Coordinates {
    pub lat: RealBits,
    pub lon: RealBits,
}

/// One observation: a telegram matched to a GPS fix. Observations are only
/// ever appended; many of them may speak of the same reporting point.
#[derive(Debug, Clone, Copy, PartialEq, Eq, Structural)]
pub struct RawTransmissionLocation {
    pub id: i64,
    pub region: i64,
    pub reporting_point: i32,
    pub lat: RealBits,
    pub lon: RealBits,
    /// The run whose trace gave the position.
    pub trekkie_run: Id,
    /// The owner of that run.
    pub run_owner: Id,
}

/// The raw observations of one reporting point.
#[derive(Debug, Clone, PartialEq, Eq)]
pub struct LocationGroup {
    pub region: i64,
    pub reporting_point: i32,
    pub rows: Vec<RawTransmissionLocation>,
}

/// What identifies a reporting point: its region and its number there.
pub type LocationKey = (i64, i32);

/// The reporting point that an observation speaks of.
pub open spec fn raw_key(row: RawTransmissionLocation) -> LocationKey {
    (row.region, row.reporting_point)
}

/// The distinct reporting points of `raw`, each at the place where it is
/// first observed.
pub open spec fn keys_in_order(raw: Seq<RawTransmissionLocation>) -> Seq<LocationKey>
    decreases raw.len(),
{
    if raw.len() == 0 {
        Seq::empty()
    } else {
        let before = keys_in_order(raw.drop_last());
        if before.contains(raw_key(raw.last())) {
            before
        } else {
            before.push(raw_key(raw.last()))
        }
    }
}

/// The observations of `raw` that speak of `key`, in the order of `raw`.
pub open spec fn rows_of(raw: Seq<RawTransmissionLocation>, key: LocationKey) -> Seq<
    RawTransmissionLocation,
>
    decreases raw.len(),
{
    if raw.len() == 0 {
        Seq::empty()
    } else {
        let before = rows_of(raw.drop_last(), key);
        if raw_key(raw.last()) == key {
            before.push(raw.last())
        } else {
            before
        }
    }
}

impl LocationGroup {
    pub open spec fn key(&self) -> LocationKey {
        (self.region, self.reporting_point)
    }
}

/// `groups` is the grouping of `raw`: one group for each distinct reporting
/// point, in order of first observation, holding exactly the observations
/// of that point in the order of `raw`.
pub open spec fn is_grouping(
    raw: Seq<RawTransmissionLocation>,
    groups: Seq<LocationGroup>,
) -> bool {
    &&& groups.len() == keys_in_order(raw).len()
    &&& forall|g: int|
        0 <= g < groups.len() ==> (#[trigger] groups[g]).key() == keys_in_order(raw)[g]
    &&& forall|g: int|
        0 <= g < groups.len() ==> (#[trigger] groups[g]).rows@ == rows_of(raw, groups[g].key())
}

/// A reporting point that was never observed has no observations.
pub proof fn unseen_key_has_no_rows(raw: Seq<RawTransmissionLocation>, key: LocationKey)
    requires
        !keys_in_order(raw).contains(key),
    ensures
        rows_of(raw, key).len() == 0,
    decreases raw.len(),
{
    if raw.len() > 0 {
        let before = keys_in_order(raw.drop_last());
        if before.contains(raw_key(raw.last())) {
            unseen_key_has_no_rows(raw.drop_last(), key);
        } else {
            let after = before.push(raw_key(raw.last()));
            assert(after.last() == raw_key(raw.last()));
            assert forall|i: int| 0 <= i < before.len() implies before[i] != key by {
                assert(after[i] == before[i]);
            }
            unseen_key_has_no_rows(raw.drop_last(), key);
        }
    }
}

/// Grouping neither loses nor invents nor repeats anything: the keys are
/// pairwise distinct, every observation's key has its group, and every
/// group holds at least one observation.
pub proof fn grouping_is_a_partition(raw: Seq<RawTransmissionLocation>)
    ensures
        keys_in_order(raw).no_duplicates(),
        forall|k: int| 0 <= k < raw.len() ==> keys_in_order(raw).contains(raw_key(#[trigger] raw[k])),
        forall|g: int|
            0 <= g < keys_in_order(raw).len() ==> rows_of(raw, #[trigger] keys_in_order(raw)[g]).len()
                > 0,
    decreases raw.len(),
{
    if raw.len() > 0 {
        let head = raw.drop_last();
        let before = keys_in_order(head);
        let key = raw_key(raw.last());
        grouping_is_a_partition(head);
        let now = keys_in_order(raw);
        if before.contains(key) {
            assert forall|k: int| 0 <= k < raw.len() implies now.contains(raw_key(#[trigger] raw[k])) by {
                if k < raw.len() - 1 {
                    assert(head[k] == raw[k]);
                }
            }
        } else {
            assert(now.last() == key);
            assert forall|k: int| 0 <= k < raw.len() implies now.contains(raw_key(#[trigger] raw[k])) by {
                if k < raw.len() - 1 {
                    assert(head[k] == raw[k]);
                    let g = choose|g: int| 0 <= g < before.len() && before[g] == raw_key(head[k]);
                    assert(now[g] == before[g]);
                } else {
                    assert(now[now.len() - 1] == key);
                }
            }
            assert forall|g: int| 0 <= g < now.len() implies rows_of(raw, #[trigger] now[g]).len()
                > 0 by {
                if g < before.len() {
                    assert(now[g] == before[g]);
                }
            }
        }
    }
}

/// The place of the group of a reporting point, if it has one.
fn find_group(groups: &Vec<LocationGroup>, region: i64, reporting_point: i32) -> (position: Option<
    usize,
>)
    ensures
        match position {
            Some(g) => g < groups.len() && groups[g as int].key() == (region, reporting_point),
            None => forall|h: int|
                0 <= h < groups.len() ==> (#[trigger] groups[h]).key() != (region, reporting_point),
        },
{
    let mut g: usize = 0;
    while g < groups.len()
        invariant
            g <= groups.len(),
            forall|h: int| 0 <= h < g ==> (#[trigger] groups[h]).key() != (region, reporting_point),
        decreases groups.len() - g,
    {
        if groups[g].region == region && groups[g].reporting_point == reporting_point {
            return Some(g);
        }
        g += 1;
    }
    None
}

/// Groups raw observations by reporting point.
pub fn group_by_reporting_point(raw: &Vec<RawTransmissionLocation>) -> (groups: Vec<LocationGroup>)
    ensures
        is_grouping(raw@, groups@),
{
    let mut groups: Vec<LocationGroup> = Vec::new();
    let mut k: usize = 0;
    while k < raw.len()
        invariant
            k <= raw.len(),
            is_grouping(raw@.take(k as int), groups@),
        decreases raw.len() - k,
    {
        let row = raw[k];
        let ghost seen = raw@.take(k as int);
        let ghost next = raw@.take(k + 1);
        let ghost old_groups = groups@;
        proof {
            assert(next.drop_last() == seen);
            assert(next.last() == row);
        }
        let position = find_group(&groups, row.region, row.reporting_point);
        if let Some(g) = position {
            proof {
                assert(keys_in_order(seen)[g as int] == raw_key(row));
                assert(keys_in_order(seen).contains(raw_key(row)));
            }
            groups[g].rows.push(row);
            assert(is_grouping(next, groups@)) by {
                grouping_is_a_partition(seen);
                assert forall|h: int| 0 <= h < groups.len() implies (#[trigger] groups[h]).key()
                    == keys_in_order(next)[h] && groups[h].rows@ == rows_of(next, groups[h].key()) by {
                    if h != g {
                        assert(groups[h] == old_groups[h]);
                        assert(keys_in_order(seen)[h] != keys_in_order(seen)[g as int]);
                    }
                }
            }
        } else {
            proof {
                assert forall|h: int| 0 <= h < keys_in_order(seen).len() implies keys_in_order(
                    seen,
                )[h] != raw_key(row) by {
                    assert(old_groups[h].key() == keys_in_order(seen)[h]);
                }
                unseen_key_has_no_rows(seen, raw_key(row));
            }
            let mut rows: Vec<RawTransmissionLocation> = Vec::new();
            rows.push(row);
            groups.push(LocationGroup { region: row.region, reporting_point: row.reporting_point, rows });
            assert(is_grouping(next, groups@)) by {
                assert(rows_of(next, raw_key(row)) =~= seq![row]);
                assert forall|h: int| 0 <= h < groups.len() implies (#[trigger] groups[h]).key()
                    == keys_in_order(next)[h] && groups[h].rows@ == rows_of(next, groups[h].key()) by {
                    if h < old_groups.len() {
                        assert(groups[h] == old_groups[h]);
                    }
                }
            }
        }
        k += 1;
    }
    assert(raw@.take(k as int) == raw@);
    groups
}

} // verus!
