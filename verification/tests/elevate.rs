use memflowup::elevate::{elevation_step, ElevationAction, ElevationState, WriteOutcome};

#[test]
fn permission_denied_system_wide_elevates_once() {
    // A direct write that fails with permission denied under
    // system-wide mode: exactly one staged, elevated copy follows.
    let (state, action) = elevation_step(
        ElevationState::Direct,
        WriteOutcome::PermissionDenied,
        true,
    );
    assert_eq!(state, ElevationState::Staged);
    assert_eq!(action, ElevationAction::StageAndElevate);

    // Whatever the copy reports, the machine only terminates: the
    // direct path is never attempted again.
    let (done, a) = elevation_step(state, WriteOutcome::Success, true);
    assert_eq!(done, ElevationState::Done);
    assert_eq!(a, ElevationAction::Stop);
    let (failed, a) = elevation_step(state, WriteOutcome::PermissionDenied, true);
    assert_eq!(failed, ElevationState::Failed);
    assert_eq!(a, ElevationAction::Stop);
}

#[test]
fn permission_denied_user_scope_fails() {
    let (state, action) = elevation_step(
        ElevationState::Direct,
        WriteOutcome::PermissionDenied,
        false,
    );
    assert_eq!(state, ElevationState::Failed);
    assert_eq!(action, ElevationAction::Stop);
}

#[test]
fn other_failures_never_elevate() {
    let (state, action) = elevation_step(ElevationState::Direct, WriteOutcome::OtherFailure, true);
    assert_eq!(state, ElevationState::Failed);
    assert_eq!(action, ElevationAction::Stop);
}

#[test]
fn direct_success_is_done() {
    let (state, action) = elevation_step(ElevationState::Direct, WriteOutcome::Success, true);
    assert_eq!(state, ElevationState::Done);
    assert_eq!(action, ElevationAction::Stop);
}

#[test]
fn terminal_states_stay_terminal() {
    for outcome in [WriteOutcome::Success, WriteOutcome::PermissionDenied,
        WriteOutcome::OtherFailure] {
        assert_eq!(
            elevation_step(ElevationState::Done, outcome, true),
            (ElevationState::Done, ElevationAction::Stop)
        );
        assert_eq!(
            elevation_step(ElevationState::Failed, outcome, true),
            (ElevationState::Failed, ElevationAction::Stop)
        );
    }
}
