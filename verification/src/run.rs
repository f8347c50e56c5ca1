//! The lifecycle of one run.

use vstd::prelude::*;
use crate::ids::fresh_uuid;

verus! {

/// Lifecycle state of one inspection run.
#[derive(Debug, Clone, Copy, PartialEq, Eq, Structural)]
pub enum RunState {
    Pending,
    Processing,
    Captured,
    Failed,
}

impl RunState {
    /// The wire name of the state, as a sequence of characters.
    pub open spec fn name(self) -> Seq<char> {
        match self {
            RunState::Pending => "pending"@,
            RunState::Processing => "processing"@,
            RunState::Captured => "captured"@,
            RunState::Failed => "failed"@,
        }
    }

    /// A terminal state admits no further transition into `Captured`.
    pub open spec fn is_terminal(self) -> bool {
        self == RunState::Captured || self == RunState::Failed
    }

    /// The wire name of the state.
    pub fn as_str(&self) -> (s: &'static str)
        ensures
            s@ == self.name(),
    {
        match self {
            RunState::Pending => "pending",
            RunState::Processing => "processing",
            RunState::Captured => "captured",
            RunState::Failed => "failed",
        }
    }
}

/// Per-call lifecycle token: `Pending -> Processing -> {Captured, Failed}`.
#[derive(Debug)]
pub struct InspectionRun {
    pub id: uuid::Uuid,
    pub state: RunState,
}

impl Clone for InspectionRun {
    fn clone(&self) -> (copy: Self)
        ensures
            copy == *self,
    {
        InspectionRun { id: self.id, state: self.state }
    }
}

impl InspectionRun {
    /// A pending run under a new identifier.
    pub fn new() -> (run: Self)
        ensures
            run.state == RunState::Pending,
    {
        InspectionRun { id: fresh_uuid(), state: RunState::Pending }
    }

    /// Takes a pending run into processing.
    pub fn start(&mut self)
        requires
            old(self).state == RunState::Pending,
        ensures
            final(self).state == RunState::Processing,
            final(self).id == old(self).id,
    {
        self.state = RunState::Processing;
    }

    /// Ends a run that is being processed with success.
    pub fn capture(&mut self)
        requires
            old(self).state == RunState::Processing,
        ensures
            final(self).state == RunState::Captured,
            final(self).id == old(self).id,
    {
        self.state = RunState::Captured;
    }

    /// Ends a run with failure. A captured run cannot fail any more.
    pub fn fail(&mut self)
        requires
            old(self).state != RunState::Captured,
        ensures
            final(self).state == RunState::Failed,
            final(self).id == old(self).id,
    {
        self.state = RunState::Failed;
    }
}

} // verus!
