use filegen::relocate::{on_rename, MoveAction, MoveEvent, MoveReport, MoveState};

#[test]
fn move_of_missing_source_describes_the_error() {
    let (state, action) = on_rename(MoveState::Pending, MoveEvent::RenameFailed);
    assert_eq!(state, MoveState::Failed);
    assert_eq!(action, MoveAction::DescribeError);
}

#[test]
fn successful_rename_is_measured() {
    let (state, action) = on_rename(MoveState::Pending, MoveEvent::Renamed);
    assert_eq!(state, MoveState::Moved);
    assert_eq!(action, MoveAction::MeasureAndReport);
}

#[test]
fn settled_move_is_not_tried_again() {
    for event in [MoveEvent::Renamed, MoveEvent::RenameFailed] {
        assert_eq!(on_rename(MoveState::Moved, event), (MoveState::Moved, MoveAction::Nothing));
        assert_eq!(on_rename(MoveState::Failed, event), (MoveState::Failed, MoveAction::Nothing));
    }
}

#[test]
fn move_report_in_megabytes() {
    let report = MoveReport { size_bytes: 2_097_152, elapsed_nanos: 12 };
    assert_eq!(report.megabytes(), 2);
    assert_eq!(MoveReport { size_bytes: 0, elapsed_nanos: 0 }.megabytes(), 0);
    assert_eq!(MoveReport { size_bytes: 1_048_575, elapsed_nanos: 0 }.megabytes(), 0);
    assert_eq!(MoveReport { size_bytes: 3_145_729, elapsed_nanos: 0 }.megabytes(), 3);
    assert_eq!(MoveReport { size_bytes: u64::MAX, elapsed_nanos: 0 }.megabytes(), u64::MAX / 1_048_576);
}
