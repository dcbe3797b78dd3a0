//! The canonical table: one authoritative position for each reporting point.
//!
//! The table is keyed by region and reporting point. Writing a position for
//! a point that has one overwrites it; nothing of the old position is kept.

use crate::gps::RealBits;
use crate::locations::{Coordinates, LocationKey};
use vstd::prelude::*;

verus! {

/// The authoritative position of one reporting point.
#[derive(Debug, Clone, Copy, PartialEq, Eq, Structural)]
pub struct TransmissionLocation {
    pub region: i64,
    pub reporting_point: i32,
    pub lat: RealBits,
    pub lon: RealBits,
}

impl TransmissionLocation {
    pub open spec fn key(&self) -> LocationKey {
        (self.region, self.reporting_point)
    }

    pub open spec fn coordinates(&self) -> Coordinates {
        Coordinates { lat: self.lat, lon: self.lon }
    }
}

/// What a table holds after `rows` have been written into it, one after
/// the other.
pub open spec fn upserted_all(
    table: Map<LocationKey, Coordinates>,
    rows: Seq<TransmissionLocation>,
) -> Map<LocationKey, Coordinates>
    decreases rows.len(),
{
    if rows.len() == 0 {
        table
    } else {
        upserted_all(table, rows.drop_last()).insert(rows.last().key(), rows.last().coordinates())
    }
}

/// No two of `rows` speak of the same reporting point.
pub open spec fn distinct_keys(rows: Seq<TransmissionLocation>) -> bool {
    forall|i: int, j: int|
        0 <= i < j < rows.len() ==> (#[trigger] rows[i]).key() != (#[trigger] rows[j]).key()
}

/// Writing rows one after the other amounts to overriding the table with
/// what the rows alone would leave in an empty one.
pub proof fn upserts_override(
    table: Map<LocationKey, Coordinates>,
    rows: Seq<TransmissionLocation>,
)
    ensures
        upserted_all(table, rows) == table.union_prefer_right(upserted_all(Map::empty(), rows)),
    decreases rows.len(),
{
    if rows.len() == 0 {
        assert(table.union_prefer_right(Map::empty()) =~= table);
    } else {
        upserts_override(table, rows.drop_last());
        let before = upserted_all(Map::empty(), rows.drop_last());
        let key = rows.last().key();
        let value = rows.last().coordinates();
        assert(table.union_prefer_right(before).insert(key, value) =~= table.union_prefer_right(
            before.insert(key, value),
        ));
    }
}

/// Writing the same rows a second time changes nothing: the table after the
/// second pass equals, entry for entry and bit for bit, the table after the
/// first.
pub proof fn upserting_twice_changes_nothing(
    table: Map<LocationKey, Coordinates>,
    rows: Seq<TransmissionLocation>,
)
    ensures
        upserted_all(upserted_all(table, rows), rows) == upserted_all(table, rows),
{
    let alone = upserted_all(Map::empty(), rows);
    upserts_override(table, rows);
    upserts_override(upserted_all(table, rows), rows);
    assert(table.union_prefer_right(alone).union_prefer_right(alone) =~= table.union_prefer_right(
        alone,
    ));
}

/// The keys that writing `rows` leaves in a table are the keys it had and
/// the keys of the rows; the table stays finite.
pub proof fn upserts_touch_only_their_keys(
    table: Map<LocationKey, Coordinates>,
    rows: Seq<TransmissionLocation>,
    key: LocationKey,
)
    ensures
        upserted_all(table, rows).contains_key(key) <==> table.contains_key(key) || exists|i: int|
            0 <= i < rows.len() && (#[trigger] rows[i]).key() == key,
        (forall|i: int| 0 <= i < rows.len() ==> (#[trigger] rows[i]).key() != key)
            && table.contains_key(key) ==> upserted_all(table, rows)[key] == table[key],
        table.dom().finite() ==> upserted_all(table, rows).dom().finite(),
    decreases rows.len(),
{
    if rows.len() > 0 {
        let head = rows.drop_last();
        upserts_touch_only_their_keys(table, head, key);
        if exists|i: int| 0 <= i < head.len() && (#[trigger] head[i]).key() == key {
            let i = choose|i: int| 0 <= i < head.len() && (#[trigger] head[i]).key() == key;
            assert(rows[i] == head[i]);
        }
        if exists|i: int| 0 <= i < rows.len() && (#[trigger] rows[i]).key() == key {
            let i = choose|i: int| 0 <= i < rows.len() && (#[trigger] rows[i]).key() == key;
            if i < head.len() {
                assert(rows[i] == head[i]);
            }
        }
        if forall|i: int| 0 <= i < rows.len() ==> (#[trigger] rows[i]).key() != key {
            assert forall|i: int| 0 <= i < head.len() implies (#[trigger] head[i]).key() != key by {
                assert(rows[i] == head[i]);
            }
            assert(rows[rows.len() - 1].key() != key);
        }
    }
}

/// In a list of rows with distinct keys, the table holds for each row
/// exactly that row's position.
proof fn distinct_rows_are_entries(rows: Seq<TransmissionLocation>, i: int)
    requires
        distinct_keys(rows),
        0 <= i < rows.len(),
    ensures
        upserted_all(Map::empty(), rows).contains_key(rows[i].key()),
        upserted_all(Map::empty(), rows)[rows[i].key()] == rows[i].coordinates(),
    decreases rows.len(),
{
    let head = rows.drop_last();
    if i < rows.len() - 1 {
        assert(distinct_keys(head)) by {
            assert forall|a: int, b: int| 0 <= a < b < head.len() implies (#[trigger] head[a]).key()
                != (#[trigger] head[b]).key() by {
                assert(head[a] == rows[a] && head[b] == rows[b]);
            }
        }
        distinct_rows_are_entries(head, i);
        assert(head[i] == rows[i]);
        assert(rows[i].key() != rows[rows.len() - 1].key());
    }
}

/// Replacing a row by one with the same key is writing that row.
proof fn replacing_is_upserting(rows: Seq<TransmissionLocation>, i: int, row: TransmissionLocation)
    requires
        distinct_keys(rows),
        0 <= i < rows.len(),
        rows[i].key() == row.key(),
    ensures
        distinct_keys(rows.update(i, row)),
        upserted_all(Map::empty(), rows.update(i, row)) == upserted_all(Map::empty(), rows).insert(
            row.key(),
            row.coordinates(),
        ),
    decreases rows.len(),
{
    let changed = rows.update(i, row);
    assert(distinct_keys(changed)) by {
        assert forall|a: int, b: int| 0 <= a < b < changed.len() implies (#[trigger] changed[a]).key()
            != (#[trigger] changed[b]).key() by {
            assert(rows[a].key() != rows[b].key());
        }
    }
    let head = rows.drop_last();
    assert(distinct_keys(head)) by {
        assert forall|a: int, b: int| 0 <= a < b < head.len() implies (#[trigger] head[a]).key()
            != (#[trigger] head[b]).key() by {
            assert(head[a] == rows[a] && head[b] == rows[b]);
        }
    }
    if i == rows.len() - 1 {
        assert(changed.drop_last() == head);
        assert(changed.last() == row);
        assert(upserted_all(Map::empty(), head).insert(rows.last().key(), rows.last().coordinates())
            .insert(row.key(), row.coordinates()) =~= upserted_all(Map::empty(), head).insert(
            row.key(),
            row.coordinates(),
        ));
    } else {
        assert(changed.drop_last() == head.update(i, row));
        assert(changed.last() == rows.last());
        assert(head[i] == rows[i]);
        replacing_is_upserting(head, i, row);
        assert(rows[i].key() != rows[rows.len() - 1].key());
        assert(upserted_all(Map::empty(), head).insert(row.key(), row.coordinates()).insert(
            rows.last().key(),
            rows.last().coordinates(),
        ) =~= upserted_all(Map::empty(), head).insert(
            rows.last().key(),
            rows.last().coordinates(),
        ).insert(row.key(), row.coordinates()));
    }
}

/// A list of rows with distinct keys fills as many entries as it has rows.
proof fn distinct_rows_count(rows: Seq<TransmissionLocation>)
    requires
        distinct_keys(rows),
    ensures
        upserted_all(Map::empty(), rows).dom().finite(),
        upserted_all(Map::empty(), rows).dom().len() == rows.len(),
    decreases rows.len(),
{
    if rows.len() == 0 {
        assert(upserted_all(Map::<LocationKey, Coordinates>::empty(), rows).dom() =~= Set::empty());
    } else {
        let head = rows.drop_last();
        assert(distinct_keys(head)) by {
            assert forall|a: int, b: int| 0 <= a < b < head.len() implies (#[trigger] head[a]).key()
                != (#[trigger] head[b]).key() by {
                assert(head[a] == rows[a] && head[b] == rows[b]);
            }
        }
        distinct_rows_count(head);
        let key = rows.last().key();
        upserts_touch_only_their_keys(Map::empty(), head, key);
        assert(!upserted_all(Map::empty(), head).contains_key(key)) by {
            if exists|i: int| 0 <= i < head.len() && (#[trigger] head[i]).key() == key {
                let i = choose|i: int| 0 <= i < head.len() && (#[trigger] head[i]).key() == key;
                assert(head[i] == rows[i]);
                assert(rows[i].key() != rows[rows.len() - 1].key());
            }
        }
        assert(upserted_all(Map::empty(), rows).dom() =~= upserted_all(
            Map::empty(),
            head,
        ).dom().insert(key));
    }
}

/// The canonical table, held in memory.
#[derive(Debug, Clone, PartialEq, Eq)]
pub struct LocationTable {
    rows: Vec<TransmissionLocation>,
}

impl View for LocationTable {
    type V = Map<LocationKey, Coordinates>;

    closed spec fn view(&self) -> Map<LocationKey, Coordinates> {
        upserted_all(Map::empty(), self.rows@)
    }
}

impl LocationTable {
    /// The table's invariant: no reporting point has two rows. Every
    /// table that this type hands out satisfies it.
    pub closed spec fn well_formed(&self) -> bool {
        distinct_keys(self.rows@)
    }

    /// A table without any position.
    pub fn new() -> (table: LocationTable)
        ensures
            table.well_formed(),
            table@ == Map::<LocationKey, Coordinates>::empty(),
    {
        LocationTable { rows: Vec::new() }
    }

    /// The number of reporting points that have a position.
    pub fn len(&self) -> (n: usize)
        requires
            self.well_formed(),
        ensures
            self@.dom().finite(),
            n == self@.dom().len(),
    {
        proof {
            distinct_rows_count(self.rows@);
        }
        self.rows.len()
    }

    fn position(&self, region: i64, reporting_point: i32) -> (at: Option<usize>)
        ensures
            match at {
                Some(i) => i < self.rows.len() && self.rows[i as int].key() == (
                    region,
                    reporting_point,
                ),
                None => !self@.contains_key((region, reporting_point)),
            },
    {
        let mut i: usize = 0;
        while i < self.rows.len()
            invariant
                i <= self.rows.len(),
                forall|j: int| 0 <= j < i ==> (#[trigger] self.rows[j]).key() != (region, reporting_point),
            decreases self.rows.len() - i,
        {
            if self.rows[i].region == region && self.rows[i].reporting_point == reporting_point {
                return Some(i);
            }
            i += 1;
        }
        proof {
            upserts_touch_only_their_keys(Map::empty(), self.rows@, (region, reporting_point));
        }
        None
    }

    /// The position that the table holds for a reporting point.
    pub fn get(&self, region: i64, reporting_point: i32) -> (found: Option<Coordinates>)
        requires
            self.well_formed(),
        ensures
            found == if self@.contains_key((region, reporting_point)) {
                Some(self@[(region, reporting_point)])
            } else {
                None
            },
    {
        match self.position(region, reporting_point) {
            Some(i) => {
                proof {
                    distinct_rows_are_entries(self.rows@, i as int);
                }
                Some(Coordinates { lat: self.rows[i].lat, lon: self.rows[i].lon })
            },
            None => None,
        }
    }

    /// Writes one position: inserts it where the reporting point has none,
    /// overwrites the old one where it has.
    pub fn upsert(&mut self, row: TransmissionLocation)
        requires
            old(self).well_formed(),
        ensures
            final(self).well_formed(),
            final(self)@ == old(self)@.insert(row.key(), row.coordinates()),
    {
        match self.position(row.region, row.reporting_point) {
            Some(i) => {
                proof {
                    replacing_is_upserting(self.rows@, i as int, row);
                }
                self.rows.set(i, row);
            },
            None => {
                proof {
                    let rows = self.rows@;
                    upserts_touch_only_their_keys(Map::empty(), rows, row.key());
                    let after = rows.push(row);
                    assert(after.drop_last() == rows);
                    assert forall|a: int, b: int| 0 <= a < b < after.len() implies (
                    #[trigger] after[a]).key() != (#[trigger] after[b]).key() by {
                        if b < rows.len() {
                            assert(rows[a].key() != rows[b].key());
                        } else {
                            assert(rows[a].key() != row.key());
                        }
                    }
                }
                self.rows.push(row);
            },
        }
    }

    /// Writes positions one after the other and says how many were written.
    pub fn upsert_all(&mut self, rows: &Vec<TransmissionLocation>) -> (written: usize)
        requires
            old(self).well_formed(),
        ensures
            final(self).well_formed(),
            final(self)@ == upserted_all(old(self)@, rows@),
            written == rows.len(),
    {
        let mut i: usize = 0;
        while i < rows.len()
            invariant
                i <= rows.len(),
                self.well_formed(),
                self@ == upserted_all(old(self)@, rows@.take(i as int)),
            decreases rows.len() - i,
        {
            proof {
                let next = rows@.take(i + 1);
                assert(next.drop_last() == rows@.take(i as int));
                assert(next.last() == rows[i as int]);
            }
            self.upsert(rows[i]);
            i += 1;
        }
        assert(rows@.take(i as int) == rows@);
        rows.len()
    }

    /// The table's rows: one for each reporting point that has a position.
    pub fn rows(&self) -> (rows: Vec<TransmissionLocation>)
        requires
            self.well_formed(),
        ensures
            distinct_keys(rows@),
            self@ == upserted_all(Map::empty(), rows@),
            rows.len() == self@.dom().len(),
    {
        proof {
            distinct_rows_count(self.rows@);
        }
        self.rows.clone()
    }
}

} // verus!
