//! Moving a directory: what follows from the outcome of the rename.

use crate::report::megabytes_in;
use vstd::prelude::*;

verus! {

/// How far a move has come.
#[derive(Clone, Copy, Debug, PartialEq, Eq, Structural)]
pub enum MoveState {
    /// The rename has not been reported on.
    Pending,
    /// The directory is at its destination.
    Moved,
    /// The rename failed; the source is where it was.
    Failed,
}

/// The outcome of the rename, as the caller reports it.
#[derive(Clone, Copy, Debug, PartialEq, Eq, Structural)]
pub enum MoveEvent {
    /// The source now stands at the destination.
    Renamed,
    /// The rename was refused.
    RenameFailed,
}

/// What the caller is to do after reporting.
#[derive(Clone, Copy, Debug, PartialEq, Eq, Structural)]
pub enum MoveAction {
    /// Measure the destination and report its size and the time taken.
    MeasureAndReport,
    /// Describe the error to the user and end normally.
    DescribeError,
    /// The move was settled before: nothing is to be done.
    Nothing,
}

/// The state and the action that an event leads to. A move is settled by
/// the first report; there is no second attempt.
pub open spec fn move_step(state: MoveState, event: MoveEvent) -> (MoveState, MoveAction) {
    match state {
        MoveState::Pending => match event {
            MoveEvent::Renamed => (MoveState::Moved, MoveAction::MeasureAndReport),
            MoveEvent::RenameFailed => (MoveState::Failed, MoveAction::DescribeError),
        },
        MoveState::Moved => (MoveState::Moved, MoveAction::Nothing),
        MoveState::Failed => (MoveState::Failed, MoveAction::Nothing),
    }
}

/// Takes in the outcome of the rename and says what is to be done.
pub fn on_rename(state: MoveState, event: MoveEvent) -> (next: (MoveState, MoveAction))
    ensures
        next == move_step(state, event),
{
    match state {
        MoveState::Pending => match event {
            MoveEvent::Renamed => (MoveState::Moved, MoveAction::MeasureAndReport),
            MoveEvent::RenameFailed => (MoveState::Failed, MoveAction::DescribeError),
        },
        MoveState::Moved => (MoveState::Moved, MoveAction::Nothing),
        MoveState::Failed => (MoveState::Failed, MoveAction::Nothing),
    }
}

/// What a successful move reports.
#[derive(Clone, Copy, Debug, PartialEq, Eq, Structural)]
pub struct MoveReport {
    /// The sizes of all files under the destination, added up, in bytes.
    pub size_bytes: u64,
    /// Time the rename took, in nanoseconds.
    pub elapsed_nanos: u128,
}

impl MoveReport {
    /// The size in whole megabytes.
    pub fn megabytes(&self) -> (megabytes: u64)
        ensures
            megabytes == megabytes_in(self.size_bytes as nat),
    {
        self.size_bytes / 1024 / 1024
    }
}

/// Once a move is settled no event changes it, and a failed rename never
/// leads to a measurement.
pub proof fn lemma_move_settles(state: MoveState, first: MoveEvent, second: MoveEvent)
    ensures
        move_step(MoveState::Pending, first).0 != MoveState::Pending,
        move_step(move_step(state, first).0, second).0 == move_step(state, first).0,
        move_step(move_step(MoveState::Pending, first).0, second).1 == MoveAction::Nothing,
        move_step(state, MoveEvent::RenameFailed).1 != MoveAction::MeasureAndReport,
{
}

} // verus!
