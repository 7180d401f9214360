use ely_app::profiles::ProfileId;
use ely_app::sync_devices::SyncDeviceUiState;

#[test]
fn changing_profiles_clears_device_ui_state() {
    let first_profile = ProfileId::new("first-profile");
    let second_profile = ProfileId::new("second-profile");
    let mut state: SyncDeviceUiState<String> = SyncDeviceUiState::default();

    state.prepare_profile(&first_profile);
    state.set_error(first_profile.clone(), "first profile error".to_string());
    state.prepare_profile(&first_profile);
    assert_eq!(state.error(), Some("first profile error"));

    state.prepare_profile(&second_profile);
    assert!(state.devices().is_empty());
    assert!(state.current_code().is_none());
    assert!(state.error().is_none());
}

#[test]
fn loading_and_actions_do_not_overlap() {
    let profile = ProfileId::new("p");
    let mut state: SyncDeviceUiState<String> = SyncDeviceUiState::default();
    state.prepare_profile(&profile);
    assert!(state.begin_load(false));
    assert!(state.is_loading());
    assert!(!state.begin_load(true));
    assert!(!state.begin_action("d1".to_string()));
    state.set_ready(profile.clone(), vec!["d1".to_string(), "d2".to_string()], "1234".to_string());
    assert_eq!(state.devices().len(), 2);
    assert_eq!(state.current_code(), Some("1234"));
    assert!(!state.begin_load(false));
    assert!(state.begin_action("d1".to_string()));
    assert!(state.is_acting_on("d1"));
    assert!(!state.is_acting_on("d2"));
    assert!(!state.begin_action("d2".to_string()));
    assert!(!state.begin_load(true));
    state.set_error(profile.clone(), "failed".to_string());
    assert_eq!(state.devices().len(), 2);
    assert!(state.begin_load(true));
    assert!(state.error().is_none());
}

#[test]
fn revoking_needs_two_requests() {
    let mut state: SyncDeviceUiState<String> = SyncDeviceUiState::default();
    assert!(!state.request_revoke_confirmation("d1"));
    assert!(state.is_revoke_confirmation("d1"));
    assert!(state.request_revoke_confirmation("d1"));
    assert!(!state.request_revoke_confirmation("d2"));
    assert!(!state.request_revoke_confirmation("d1"));
    state.reset();
    assert!(!state.is_revoke_confirmation("d1"));
}
