//! The staged instantiation pipeline as an explicit state machine.
//!
//! One run moves through `Acquired`, `Parsed`, `Evaluated` and `Copied` in
//! that order and no other: requesting a later stage before its predecessor
//! completed is refused with a precondition error, never an undefined
//! intermediate state.
use crate::error::BleurError;
use vstd::prelude::*;

verus! {

/// Where a run stands: freshly created, or past one of its four stages.
#[derive(Clone, Copy, Debug, PartialEq, Eq, Structural)]
pub enum Stage {
    /// Nothing has happened yet.
    Created,
    /// The remote source was fetched into the working directory.
    Acquired,
    /// The template configuration was read from the working directory.
    Parsed,
    /// The task list was derived and executed against the store.
    Evaluated,
    /// The working copy was copied to the destination; the run is done.
    Copied,
}

/// The position of a stage in the run.
pub open spec fn stage_rank(s: Stage) -> int {
    match s {
        Stage::Created => 0,
        Stage::Acquired => 1,
        Stage::Parsed => 2,
        Stage::Evaluated => 3,
        Stage::Copied => 4,
    }
}

impl Stage {
    /// The position of the stage in the run.
    pub fn rank(&self) -> (r: u8)
        ensures
            r as int == stage_rank(*self),
    {
        match self {
            Stage::Created => 0,
            Stage::Acquired => 1,
            Stage::Parsed => 2,
            Stage::Evaluated => 3,
            Stage::Copied => 4,
        }
    }

    /// Admits only the immediate successor stage: requesting any other —
    /// skipping ahead, repeating, or going back — fails with the
    /// precondition error.
    pub fn advance_to(self, requested: Stage) -> (r: Result<Stage, BleurError>)
        ensures
            stage_rank(requested) == stage_rank(self) + 1 ==> r == Result::<
                Stage,
                BleurError,
            >::Ok(requested),
            stage_rank(requested) != stage_rank(self) + 1 ==> r == Result::<
                Stage,
                BleurError,
            >::Err(BleurError::InsufficientArgumentsToDecide),
    {
        let cur = self.rank();
        let req = requested.rank();
        if req == cur + 1 {
            Ok(requested)
        } else {
            Err(BleurError::InsufficientArgumentsToDecide)
        }
    }
}

} // verus!
