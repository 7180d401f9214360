use ely_app::cloud_upload::{
    merge_replaces, CloudUploadState, PendingMergeUpload, ScheduleAction, UploadStart,
};
use ely_app::profiles::ProfileId;

fn merge(profile: &str, revision: u64, conflicts: u8) -> PendingMergeUpload {
    PendingMergeUpload { profile_id: ProfileId::new(profile), base_revision: revision, conflict_count: conflicts }
}

#[test]
fn merge_replacement_prefers_newer_base() {
    assert!(merge_replaces(None, &merge("a", 1, 0)));
    assert!(merge_replaces(Some(&merge("a", 1, 0)), &merge("a", 2, 0)));
    assert!(!merge_replaces(Some(&merge("a", 2, 0)), &merge("a", 1, 5)));
    assert!(merge_replaces(Some(&merge("a", 2, 0)), &merge("a", 2, 1)));
    assert!(!merge_replaces(Some(&merge("a", 2, 1)), &merge("a", 2, 1)));
    assert!(merge_replaces(Some(&merge("a", 9, 9)), &merge("b", 1, 0)));
}

#[test]
fn uploads_are_debounced_and_queued() {
    let mut state = CloudUploadState::new();
    assert_eq!(state.schedule(false), ScheduleAction::Skip);
    assert_eq!(state.schedule(true), ScheduleAction::StartDebounce);
    assert_eq!(state.schedule(true), ScheduleAction::AlreadyScheduled);
    assert!(state.debounce_elapsed());
    assert!(!state.debounce_elapsed());
    let active = ProfileId::new("a");
    match state.begin_upload(true, Some(merge("b", 1, 0)), &active) {
        UploadStart::Start(None) => {}
        other => panic!("unexpected start {other:?}"),
    }
    state.mark_in_flight();
    assert_eq!(state.schedule(true), ScheduleAction::Queued);
    assert!(matches!(state.begin_upload(true, Some(merge("a", 3, 0)), &active), UploadStart::Queued));
    state.queue(Some(merge("a", 2, 0)));
    state.mark_finished();
    match state.take_pending() {
        Some(Some(kept)) => assert_eq!(kept.base_revision, 3),
        other => panic!("unexpected pending {other:?}"),
    }
    assert!(state.take_pending().is_none());
    state.queue(None);
    assert!(matches!(state.begin_upload(false, None, &active), UploadStart::Disabled));
    assert!(state.take_pending().is_none());
    state.queue(None);
    state.invalidate();
    assert!(!state.in_flight && !state.scheduled && state.take_pending().is_none());
}
