//! The run: one recorded observation session and the states it moves through.

use crate::ids::Id;
use crate::management::AuthorizedUser;
use crate::time::Timestamp;
use vstd::prelude::*;

verus! {

/// Where a run stands in its life. A run only ever moves forward:
/// `Open`, then `Finished`, then `Correlated`.
#[derive(Debug, Clone, Copy, PartialEq, Eq, Structural)]
pub enum RunState {
    /// Accepts live GPS points; its boundaries mean nothing yet.
    Open,
    /// Boundaries are set; live ingestion is over.
    Finished,
    /// Its trace has been matched against telegrams.
    Correlated,
}

impl RunState {
    /// How far along its life a run in this state is.
    pub open spec fn rank(self) -> nat {
        match self {
            RunState::Open => 0,
            RunState::Finished => 1,
            RunState::Correlated => 2,
        }
    }

    /// A run in this state may come to be in `next`: it stays, or moves on.
    pub open spec fn leads_to(self, next: RunState) -> bool {
        self.rank() <= next.rank()
    }
}

/// One recorded vehicle observation session.
#[derive(Debug, Clone, PartialEq, Eq)]
pub struct Run {
    pub id: Id,
    /// Meaningful once the run is finished.
    pub start_time: Timestamp,
    /// Meaningful once the run is finished.
    pub end_time: Timestamp,
    pub line: i32,
    pub run: i32,
    pub region: i64,
    pub owner: Id,
    pub finished: bool,
    pub correlated: bool,
    /// Revision of the recording application.
    pub app_commit: String,
    /// Name of the recording application.
    pub app_name: String,
}

impl Run {
    /// The invariant of every run that the library hands out: a correlated
    /// run is finished, and a finished run does not end before it starts.
    pub open spec fn well_formed(&self) -> bool {
        &&& self.correlated ==> self.finished
        &&& self.finished ==> self.start_time <= self.end_time
    }

    pub open spec fn spec_state(&self) -> RunState {
        if self.correlated {
            RunState::Correlated
        } else if self.finished {
            RunState::Finished
        } else {
            RunState::Open
        }
    }

    /// The state that the two flags encode.
    #[verifier::when_used_as_spec(spec_state)]
    pub fn state(&self) -> (s: RunState)
        ensures
            s == self.spec_state(),
    {
        if self.correlated {
            RunState::Correlated
        } else if self.finished {
            RunState::Finished
        } else {
            RunState::Open
        }
    }

    pub open spec fn spec_accessible_to(&self, user: &AuthorizedUser) -> bool {
        user.spec_is_admin() || user.id == self.owner
    }

    /// The authorization rule shared by every operation on a run: its owner
    /// may touch it, and so may any administrator.
    #[verifier::when_used_as_spec(spec_accessible_to)]
    pub fn accessible_to(&self, user: &AuthorizedUser) -> (b: bool)
        ensures
            b == self.spec_accessible_to(user),
    {
        user.is_admin() || user.id == self.owner
    }

    /// The run as it stands once its boundaries are fixed.
    pub open spec fn closed(self, start: Timestamp, end: Timestamp) -> Run {
        Run { start_time: start, end_time: end, finished: true, ..self }
    }

    /// The run as it stands once it is marked correlated.
    pub open spec fn marked_correlated(self) -> Run {
        Run { correlated: true, ..self }
    }
}

} // verus!
