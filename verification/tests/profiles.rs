use ely_app::downloads::{DownloadDestination, DownloadPolicy};
use ely_app::profiles::{download_policy_label, profile_detail_label, profile_kind_label, profile_name, tab_profile_label, ProfileId, ProfileKind, ProfileSummary};
use ely_app::tab_context::{
    diagnostic_tab_state_label, favicon_status, space_name, tab_state_label, task_count,
    SpaceSummary, TabState,
};

#[test]
fn profile_and_tab_labels() {
    let profiles = vec![ProfileSummary { id: ProfileId::new("p1"), name: "Work".to_string(), kind: ProfileKind::Standard }];
    assert_eq!(tab_profile_label(&ProfileId::new("p1"), &profiles), "Profile: Work");
    assert_eq!(tab_profile_label(&ProfileId::new("p9"), &profiles), "Profile: p9");
    assert_eq!(profile_name(&ProfileId::new("p9"), &profiles), "p9");
    assert_eq!(profile_kind_label(&ProfileKind::Private), "Private");
    let spaces = vec![SpaceSummary { id: "s1".to_string(), name: "Home".to_string() }];
    assert_eq!(space_name(&"s1".to_string(), &spaces), "Home");
    assert_eq!(space_name(&"s2".to_string(), &spaces), "s2");
    assert_eq!(favicon_status(Some("abc")), "Saved: abc");
    assert_eq!(favicon_status(None), "No favicon saved");
    assert_eq!(tab_state_label(&TabState::Discarded), "Discarded");
    assert_eq!(diagnostic_tab_state_label(&TabState::Discarded), "Sleeping");
    assert_eq!(task_count(3, 2, 1), 6);
}

#[test]
fn profile_detail_lists_kind_downloads_and_sync() {
    use_profile_detail();
}

fn use_profile_detail() {
    let ask = DownloadPolicy { destination: DownloadDestination::AskEveryTime };
    let fixed = DownloadPolicy { destination: DownloadDestination::FixedDirectory("/d".to_string()) };
    assert_eq!(download_policy_label(&ask), "Ask every time");
    assert_eq!(profile_detail_label(&ProfileKind::Private, &fixed, "Sync off"), "Private - /d - Sync off");
}
