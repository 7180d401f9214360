use ely_app::local_state_save::LocalStateSave;

#[test]
fn a_burst_of_changes_starts_one_debounced_save() {
    let mut save = LocalStateSave::new(true);
    assert!(save.request());
    assert!(!save.request());
    assert!(!save.request());
    assert!(save.timer_fired());
    assert!(!save.scheduled);
    assert!(save.request());
}

#[test]
fn nothing_is_saved_without_a_state_file() {
    let mut save = LocalStateSave::new(false);
    assert!(!save.request());
    assert!(!save.scheduled);
    assert!(!save.timer_fired());
}
