use ely_app::reading_list::{added_at_label, added_at_label_for, reading_list_count_label, reading_list_space_name};
use ely_app::tab_context::SpaceSummary;
use ely_app::time::Timestamp;

#[test]
fn added_at_label_formats_recent_entries() {
    let now = 10_000;

    assert_eq!(
        added_at_label_for(Timestamp::from_secs(now - 20), Timestamp::from_secs(now)),
        "Added just now"
    );
}

#[test]
fn added_at_label_formats_minutes_hours_days_and_older_entries() {
    let now = 1_000_000;
    let at = Timestamp::from_secs(now);

    assert_eq!(added_at_label_for(Timestamp::from_secs(now - 120), at), "Added 2 mins ago");
    assert_eq!(added_at_label_for(Timestamp::from_secs(now - 10_800), at), "Added 3 hrs ago");
    assert_eq!(added_at_label_for(Timestamp::from_secs(now - 345_600), at), "Added 4 days ago");
    assert_eq!(added_at_label_for(Timestamp::from_secs(now - 691_200), at), "Added earlier");
}

#[test]
fn reading_list_labels() {
    assert_eq!(reading_list_count_label(1), "1 item");
    assert_eq!(reading_list_count_label(3), "3 items");
    let spaces = vec![SpaceSummary { id: "s1".to_string(), name: "Work".to_string() }];
    assert_eq!(reading_list_space_name(&"s1".to_string(), &spaces), Some("Work".to_string()));
    assert_eq!(reading_list_space_name(&"s2".to_string(), &spaces), None);
}

#[test]
fn added_at_label_uses_the_clock() {
    assert_eq!(added_at_label(Timestamp::from_secs(0)), "Added earlier");
}
