//! Telegrams: the radio transmissions that a run's trace is matched against.

use crate::time::Timestamp;
use crate::trekkie::Run;
use vstd::prelude::*;

verus! {

/// A received radio transmission, as far as correlation reads it. Telegrams
/// are supplied by another subsystem and only ever queried here.
#[derive(Debug, Clone, Copy, PartialEq, Eq, Structural)]
pub struct Telegram {
    pub id: i64,
    pub time: Timestamp,
    pub region: i64,
    pub reporting_point: i32,
    pub line: Option<i32>,
    pub run_number: Option<i32>,
}

/// Which telegrams can belong to a run: those sent between its boundaries
/// by a vehicle on its line with its run number. This narrow scope is what
/// keeps other runs that share the time window out of a correlation.
#[derive(Debug, Clone, Copy, PartialEq, Eq, Structural)]
pub struct TelegramScope {
    pub start: Timestamp,
    pub end: Timestamp,
    pub line: i32,
    pub run_number: i32,
}

impl TelegramScope {
    pub open spec fn spec_of(run: &Run) -> TelegramScope {
        TelegramScope {
            start: run.start_time,
            end: run.end_time,
            line: run.line,
            run_number: run.run,
        }
    }

    /// The scope of a run.
    pub fn of(run: &Run) -> (scope: TelegramScope)
        ensures
            scope == Self::spec_of(run),
    {
        TelegramScope {
            start: run.start_time,
            end: run.end_time,
            line: run.line,
            run_number: run.run,
        }
    }

    pub open spec fn spec_covers(&self, telegram: &Telegram) -> bool {
        &&& self.start <= telegram.time <= self.end
        &&& telegram.line == Some(self.line)
        &&& telegram.run_number == Some(self.run_number)
    }

    /// Whether a telegram lies in the scope. A telegram that names no line
    /// or no run number lies in none.
    #[verifier::when_used_as_spec(spec_covers)]
    pub fn covers(&self, telegram: &Telegram) -> (b: bool)
        ensures
            b == self.spec_covers(telegram),
    {
        let on_line = match telegram.line {
            Some(line) => line == self.line,
            None => false,
        };
        let on_run = match telegram.run_number {
            Some(run_number) => run_number == self.run_number,
            None => false,
        };
        self.start <= telegram.time && telegram.time <= self.end && on_line && on_run
    }

    /// The telegrams of `telegrams` that lie in the scope, in their order.
    pub open spec fn spec_select(&self, telegrams: Seq<Telegram>) -> Seq<Telegram>
        decreases telegrams.len(),
    {
        if telegrams.len() == 0 {
            Seq::empty()
        } else {
            let before = self.spec_select(telegrams.drop_last());
            if self.spec_covers(&telegrams.last()) {
                before.push(telegrams.last())
            } else {
                before
            }
        }
    }

    /// Picks the telegrams that lie in the scope.
    pub fn select(&self, telegrams: &Vec<Telegram>) -> (chosen: Vec<Telegram>)
        ensures
            chosen@ == self.spec_select(telegrams@),
    {
        let mut chosen: Vec<Telegram> = Vec::new();
        let mut i: usize = 0;
        while i < telegrams.len()
            invariant
                i <= telegrams.len(),
                chosen@ == self.spec_select(telegrams@.take(i as int)),
            decreases telegrams.len() - i,
        {
            proof {
                let next = telegrams@.take(i + 1);
                assert(next.drop_last() == telegrams@.take(i as int));
                assert(next.last() == telegrams[i as int]);
            }
            if self.covers(&telegrams[i]) {
                chosen.push(telegrams[i]);
            }
            i += 1;
        }
        assert(telegrams@.take(i as int) == telegrams@);
        chosen
    }
}

/// Selection keeps exactly the covered telegrams: everything chosen is
/// covered and was offered, and every covered telegram that was offered is
/// chosen.
pub proof fn selection_is_exact(scope: TelegramScope, telegrams: Seq<Telegram>)
    ensures
        forall|t: Telegram| #[trigger]
            scope.spec_select(telegrams).contains(t) <==> telegrams.contains(t)
                && scope.spec_covers(&t),
        scope.spec_select(telegrams).len() <= telegrams.len(),
    decreases telegrams.len(),
{
    let chosen = scope.spec_select(telegrams);
    if telegrams.len() > 0 {
        let head = telegrams.drop_last();
        let last = telegrams.last();
        let before = scope.spec_select(head);
        selection_is_exact(scope, head);
        assert forall|t: Telegram| #[trigger]
            chosen.contains(t) <==> telegrams.contains(t) && scope.spec_covers(&t) by {
            if chosen.contains(t) {
                let i = choose|i: int| 0 <= i < chosen.len() && chosen[i] == t;
                if i < before.len() {
                    assert(before[i] == t);
                    assert(before.contains(t));
                    let j = choose|j: int| 0 <= j < head.len() && head[j] == t;
                    assert(telegrams[j] == t);
                } else {
                    assert(t == last);
                    assert(telegrams[telegrams.len() - 1] == t);
                }
            }
            if telegrams.contains(t) && scope.spec_covers(&t) {
                let j = choose|j: int| 0 <= j < telegrams.len() && telegrams[j] == t;
                if j < head.len() {
                    assert(head[j] == t);
                    assert(before.contains(t));
                    let i = choose|i: int| 0 <= i < before.len() && before[i] == t;
                    assert(chosen[i] == t);
                } else {
                    assert(chosen[chosen.len() - 1] == t);
                }
            }
        }
    }
}

} // verus!
