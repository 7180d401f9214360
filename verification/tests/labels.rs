use ely_app::advanced::{advanced_policy_count, archive_policy_label as advanced_archive_label, audit_event_count};
use ely_app::command::{
    command_activated_row, command_key_action, CommandOverlay, OverlayKeyOutcome, command_needle, command_select_next,
    command_select_prev, CommandKeyAction,
};
use ely_app::labels::{
    bookmark_count_label, destination_button_label, history_policy_button_label,
    policy_button_label, search_engine_button_label, sync_object_kind_label,
    HistoryRecordingPolicy, SyncObjectKind,
};
use ely_app::routes::{crash_route_tab_id, site_settings_route};
use ely_app::sidebar_tabs::{archive_policy_label as sidebar_archive_label, archive_policy_options};
use ely_app::spaces::ArchivePolicy;

#[test]
fn count_and_button_labels() {
    assert_eq!(bookmark_count_label(1), "1 bookmark");
    assert_eq!(bookmark_count_label(0), "0 bookmarks");
    assert_eq!(bookmark_count_label(42), "42 bookmarks");
    assert_eq!(search_engine_button_label(true), "Active");
    assert_eq!(destination_button_label(false), "Select");
    assert_eq!(policy_button_label(true), "Active");
    assert_eq!(history_policy_button_label(HistoryRecordingPolicy::Record, true), "Default");
    assert_eq!(history_policy_button_label(HistoryRecordingPolicy::Pause, true), "Active");
    assert_eq!(history_policy_button_label(HistoryRecordingPolicy::Pause, false), "Select");
    assert_eq!(sync_object_kind_label(SyncObjectKind::Tabs), "Tabs & pinned");
    assert_eq!(sync_object_kind_label(SyncObjectKind::PluginSettings), "Plugins");
    assert_eq!(advanced_policy_count(), 8);
    assert_eq!(audit_event_count(2, 3), 5);
    assert_eq!(advanced_archive_label(&ArchivePolicy::IdleDays(1)), "1 day");
    assert_eq!(sidebar_archive_label(&ArchivePolicy::IdleDays(1)), "Custom");
    assert_eq!(archive_policy_options().len(), 4);
}

#[test]
fn crash_routes_carry_one_tab_id() {
    assert_eq!(crash_route_tab_id("ely://crash/tab-1"), Some("tab-1"));
    assert_eq!(crash_route_tab_id("ely://crash/"), None);
    assert_eq!(crash_route_tab_id("ely://crash/a/b"), None);
    assert_eq!(crash_route_tab_id("ely://history"), None);
    assert_eq!(site_settings_route("https://example.com"), "ely://site/https://example.com");
}

#[test]
fn command_selection_wraps() {
    assert_eq!(command_select_next(0, 3), 1);
    assert_eq!(command_select_next(2, 3), 0);
    assert_eq!(command_select_prev(0, 3), 2);
    assert_eq!(command_select_prev(2, 3), 1);
    assert_eq!(command_select_next(5, 0), 0);
    assert_eq!(command_select_prev(5, 0), 0);
    for total in 1..6usize {
        for selected in 0..total {
            assert_eq!(command_select_prev(command_select_next(selected, total), total), selected);
        }
    }
}

#[test]
fn command_overlay_keys() {
    assert_eq!(command_needle(">  Open TAB "), Some("open tab".to_string()));
    assert_eq!(command_needle("open"), None);
    assert_eq!(command_needle(""), None);
    assert_eq!(command_key_action("up", 3, 0), CommandKeyAction::Select(2));
    assert_eq!(command_key_action("down", 3, 2), CommandKeyAction::Select(0));
    assert_eq!(command_key_action("enter", 3, 1), CommandKeyAction::Activate);
    assert_eq!(command_key_action("left", 3, 1), CommandKeyAction::Ignore);
}

#[test]
fn enter_runs_the_highlighted_row_or_the_last_one() {
    assert_eq!(command_activated_row(1, 3), Some(1));
    assert_eq!(command_activated_row(7, 3), Some(2));
    assert_eq!(command_activated_row(0, 0), None);
}

#[test]
fn command_overlay_handles_arrows_and_enter_only_for_commands() {
    let mut overlay = CommandOverlay { query: ">set".to_string(), selected: 0 };
    assert_eq!(overlay.on_key(true, "up", 3), OverlayKeyOutcome::Moved);
    assert_eq!(overlay.selected, 2);
    assert_eq!(overlay.on_key(true, "down", 3), OverlayKeyOutcome::Moved);
    assert_eq!(overlay.selected, 0);
    assert_eq!(overlay.on_key(true, "left", 3), OverlayKeyOutcome::Ignored);
    assert_eq!(overlay.on_key(false, "down", 3), OverlayKeyOutcome::Ignored);
    assert_eq!(overlay.selected, 0);
    assert_eq!(overlay.on_key(true, "enter", 0), OverlayKeyOutcome::NothingToRun);
    assert_eq!(overlay.query, ">set");
    overlay.selected = 5;
    assert_eq!(overlay.on_key(true, "enter", 2), OverlayKeyOutcome::Run(1));
    assert_eq!(overlay.query, "");
    assert_eq!(overlay.selected, 0);

    let mut single = CommandOverlay { query: ">tab".to_string(), selected: 0 };
    assert_eq!(single.on_key(true, "down", 1), OverlayKeyOutcome::Held);
    assert_eq!(single.selected, 0);
    let mut empty = CommandOverlay { query: ">zzz".to_string(), selected: 2 };
    assert_eq!(empty.on_key(true, "up", 0), OverlayKeyOutcome::Held);
    assert_eq!(empty.selected, 0);

    let mut plain = CommandOverlay { query: "news".to_string(), selected: 1 };
    assert_eq!(plain.on_key(true, "enter", 4), OverlayKeyOutcome::Ignored);
    assert_eq!(plain.query, "news");
    assert_eq!(plain.selected, 1);
}
