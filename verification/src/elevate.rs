//! The privileged-write fallback: attempt a direct write; on a
//! permission-denied failure under system-wide mode, stage the content
//! in a private temporary location and perform one elevated copy into
//! place.  The elevated path is taken at most once and the direct path
//! is never retried.
//!
//! The machine below makes the decisions; the surrounding application
//! performs the writes and feeds their outcomes back in.

use vstd::prelude::*;

verus! {

/// What the platform reported for one write or copy attempt.
#[derive(Debug, Clone, Copy, PartialEq, Eq, Structural)]
pub enum WriteOutcome {
    Success,
    PermissionDenied,
    OtherFailure,
}

/// Where a privileged write stands.
#[derive(Debug, Clone, Copy, PartialEq, Eq, Structural)]
pub enum ElevationState {
    /// The direct write is being attempted.
    Direct,
    /// The direct write hit a permission failure; the staged, elevated
    /// copy is being attempted.
    Staged,
    /// The content is in place.
    Done,
    /// The write failed for good.
    Failed,
}

/// What the application must do next.
#[derive(Debug, Clone, Copy, PartialEq, Eq, Structural)]
pub enum ElevationAction {
    /// Write the content into a private temporary file, then copy it
    /// into place with elevated privileges.
    StageAndElevate,
    /// Nothing further; the state is terminal.
    Stop,
}

/// The transition of the elevation machine: one outcome in, the next
/// state and the next action out.  The staged, elevated copy is asked
/// for exactly on a permission-denied direct write under system-wide
/// mode, and no transition ever re-enters the direct state.
pub open spec fn spec_elevation_step(
    state: ElevationState,
    outcome: WriteOutcome,
    system_wide: bool,
) -> (ElevationState, ElevationAction) {
    match state {
        ElevationState::Direct => match outcome {
            WriteOutcome::Success => (ElevationState::Done, ElevationAction::Stop),
            WriteOutcome::PermissionDenied => if system_wide {
                (ElevationState::Staged, ElevationAction::StageAndElevate)
            } else {
                (ElevationState::Failed, ElevationAction::Stop)
            },
            WriteOutcome::OtherFailure => (ElevationState::Failed, ElevationAction::Stop),
        },
        ElevationState::Staged => match outcome {
            WriteOutcome::Success => (ElevationState::Done, ElevationAction::Stop),
            _ => (ElevationState::Failed, ElevationAction::Stop),
        },
        ElevationState::Done => (ElevationState::Done, ElevationAction::Stop),
        ElevationState::Failed => (ElevationState::Failed, ElevationAction::Stop),
    }
}

/// Runs one transition of the elevation machine.
pub fn elevation_step(state: ElevationState, outcome: WriteOutcome, system_wide: bool) -> (r: (
    ElevationState,
    ElevationAction,
))
    ensures
        r == spec_elevation_step(state, outcome, system_wide),
{
    match state {
        ElevationState::Direct => match outcome {
            WriteOutcome::Success => (ElevationState::Done, ElevationAction::Stop),
            WriteOutcome::PermissionDenied => if system_wide {
                (ElevationState::Staged, ElevationAction::StageAndElevate)
            } else {
                (ElevationState::Failed, ElevationAction::Stop)
            },
            WriteOutcome::OtherFailure => (ElevationState::Failed, ElevationAction::Stop),
        },
        ElevationState::Staged => match outcome {
            WriteOutcome::Success => (ElevationState::Done, ElevationAction::Stop),
            _ => (ElevationState::Failed, ElevationAction::Stop),
        },
        ElevationState::Done => (ElevationState::Done, ElevationAction::Stop),
        ElevationState::Failed => (ElevationState::Failed, ElevationAction::Stop),
    }
}

/// Elevation fallback: the staged, elevated copy is asked for exactly
/// when a direct write fails with permission denied under system-wide
/// mode; no transition re-enters the direct state, so the direct path
/// is attempted once, and the elevated path at most once.
pub proof fn lemma_elevation_once(state: ElevationState, outcome: WriteOutcome, system_wide: bool)
    ensures
        spec_elevation_step(state, outcome, system_wide).1 == ElevationAction::StageAndElevate
            <==> (state == ElevationState::Direct && outcome == WriteOutcome::PermissionDenied
            && system_wide),
        spec_elevation_step(state, outcome, system_wide).0 != ElevationState::Direct,
        state != ElevationState::Direct ==> spec_elevation_step(state, outcome, system_wide).0
            != ElevationState::Staged,
{
}

} // verus!
