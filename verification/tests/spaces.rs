use ely_app::profiles::{ProfileId, ProfileKind, ProfileSummary};
use ely_app::spaces::{
    accent_label, archive_policy_label, default_profile_label, space_detail_label,
    time_until_purge, trash_retention_label, trashed_space_detail_label, ArchivePolicy,
};
use ely_app::time::Timestamp;

#[test]
fn time_until_purge_rounds_up_to_days() {
    let now = Timestamp::from_secs(1_000_000);
    assert_eq!(time_until_purge(Timestamp::from_secs(1_000_000 + 3_599), now), "under 1 hour");
    assert_eq!(time_until_purge(Timestamp::from_secs(999_000), now), "under 1 hour");
    assert_eq!(time_until_purge(Timestamp::from_secs(1_000_000 + 3_600), now), "1 day");
    assert_eq!(time_until_purge(Timestamp::from_secs(1_000_000 + 86_400), now), "1 day");
    assert_eq!(time_until_purge(Timestamp::from_secs(1_000_000 + 86_401), now), "2 days");
    assert_eq!(time_until_purge(Timestamp::from_secs(1_000_000 + 30 * 86_400), now), "30 days");
}

#[test]
fn accent_label_is_six_upper_hex_digits() {
    assert_eq!(accent_label(0x00ff00), "#00FF00");
    assert_eq!(accent_label(0xabc), "#000ABC");
    assert_eq!(accent_label(0x12345678), "#12345678");
    assert_eq!(accent_label(0), "#000000");
}

#[test]
fn space_labels() {
    assert_eq!(archive_policy_label(&ArchivePolicy::Manual), "Manual archive");
    assert_eq!(archive_policy_label(&ArchivePolicy::IdleDays(0)), "Archive today");
    assert_eq!(archive_policy_label(&ArchivePolicy::IdleDays(1)), "Archive after 1 day");
    assert_eq!(archive_policy_label(&ArchivePolicy::IdleDays(14)), "Custom archive policy");
    let profiles = vec![ProfileSummary {
        id: ProfileId::new("p1"),
        name: "Default".to_string(),
        kind: ProfileKind::Standard,
    }];
    assert_eq!(default_profile_label(&ProfileId::new("p1"), &profiles), "Default profile: Default");
    assert_eq!(default_profile_label(&ProfileId::new("p2"), &profiles), "Default profile unavailable");
    assert_eq!(
        space_detail_label(0x112233, &ArchivePolicy::IdleDays(7), &ProfileId::new("p1"), &profiles),
        "#112233 - Archive after 7 days - Default profile: Default"
    );
}

#[test]
fn trashed_space_lines_show_counts_and_retention() {
    let now = Timestamp::from_secs(2_000_000);
    let due = Timestamp::from_secs(2_000_000 + 2 * 86_400);
    assert_eq!(trash_retention_label(false, due, now), "purges in 2 days");
    assert_eq!(trash_retention_label(true, due, now), "eligible for permanent purge");
    assert_eq!(
        trashed_space_detail_label(3, 12, false, Timestamp::from_secs(2_000_100), now),
        "3 open tabs - 12 archived tabs - purges in under 1 hour"
    );
    assert_eq!(
        trashed_space_detail_label(0, 1, true, now, now),
        "0 open tabs - 1 archived tabs - eligible for permanent purge"
    );
}
