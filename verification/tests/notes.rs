use ely_app::notes::{markdown_preview, note_space_name, updated_at_label, notes_count_label, truncate_chars, updated_at_label_for};
use ely_app::tab_context::SpaceSummary;
use ely_app::time::Timestamp;

fn before(now: u64, secs: u64) -> Timestamp {
    Timestamp::from_secs(now - secs)
}

#[test]
fn markdown_preview_uses_first_non_empty_line() {
    assert_eq!(markdown_preview("\n  # Heading\n- detail"), "# Heading");
}

#[test]
fn markdown_preview_truncates_long_lines() {
    let preview = markdown_preview(&"a".repeat(130));

    assert_eq!(preview.len(), 123);
    assert!(preview.ends_with("..."));
}

#[test]
fn updated_at_label_formats_recent_entries() {
    let now = 10_000;

    assert_eq!(updated_at_label_for(before(now, 20), Timestamp::from_secs(now)), "Updated just now");
}

#[test]
fn updated_at_label_formats_minutes_hours_days_and_older_entries() {
    let now = 1_000_000;
    let at = Timestamp::from_secs(now);

    assert_eq!(updated_at_label_for(before(now, 120), at), "Updated 2 mins ago");
    assert_eq!(updated_at_label_for(before(now, 10_800), at), "Updated 3 hrs ago");
    assert_eq!(updated_at_label_for(before(now, 345_600), at), "Updated 4 days ago");
    assert_eq!(updated_at_label_for(before(now, 691_200), at), "Updated earlier");
}

#[test]
fn updated_at_label_uses_whole_elapsed_seconds() {
    let updated = Timestamp { secs: 100, subsec_nanos: 900_000_000 };
    let now = Timestamp { secs: 160, subsec_nanos: 500_000_000 };
    assert_eq!(updated_at_label_for(updated, now), "Updated just now");
    let later = Timestamp { secs: 160, subsec_nanos: 900_000_000 };
    assert_eq!(updated_at_label_for(updated, later), "Updated 1 mins ago");
    assert_eq!(updated_at_label_for(now, updated), "Updated just now");
}

#[test]
fn notes_count_label_pluralizes() {
    assert_eq!(notes_count_label(0), "0 notes");
    assert_eq!(notes_count_label(1), "1 note");
    assert_eq!(notes_count_label(12), "12 notes");
}

#[test]
fn markdown_preview_of_blank_body_is_empty() {
    assert_eq!(markdown_preview("  \n\t\n"), "");
    assert_eq!(markdown_preview("first\r\nsecond"), "first");
}

#[test]
fn truncate_chars_counts_characters() {
    assert_eq!(truncate_chars("ééé", 2), "éé...");
    assert_eq!(truncate_chars("abc", 3), "abc");
}

#[test]
fn note_space_name_finds_existing_spaces() {
    let spaces = vec![
        SpaceSummary { id: "a".to_string(), name: "First".to_string() },
        SpaceSummary { id: "a".to_string(), name: "Second".to_string() },
    ];
    assert_eq!(note_space_name(&"a".to_string(), &spaces), Some("First".to_string()));
    assert_eq!(note_space_name(&"b".to_string(), &spaces), None);
}

#[test]
fn updated_at_label_uses_the_clock() {
    assert_eq!(updated_at_label(Timestamp::from_secs(u64::MAX)), "Updated just now");
    assert_eq!(updated_at_label(Timestamp::from_secs(0)), "Updated earlier");
}
