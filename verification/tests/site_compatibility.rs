use ely_app::profiles::ProfileKind;
use ely_app::site_compatibility::{
    compatibility_summary_text, diagnostic_report, diagnostic_url_scope, DiagnosticFacts,
};
use ely_app::tab_context::TabState;

#[test]
fn diagnostic_report_includes_local_event_count() {
    let facts = DiagnosticFacts {
        build_revision: "abc123".to_string(),
        servo_version: "0.1".to_string(),
        gpui_version: "0.2".to_string(),
        space_name: "Personal".to_string(),
        profile_name: "Default".to_string(),
        profile_kind: ProfileKind::Standard,
        diagnostic_events: 1,
        url_scope: diagnostic_url_scope("https://example.com/private?x=1", Some("https://example.com")),
        tab_title: "Example".to_string(),
        tab_state: TabState::Discarded,
        site_permissions: 2,
        permission_audit_events: 0,
    };
    let report = diagnostic_report(&facts);
    assert!(report.contains("Local diagnostics: 1"));
    assert!(!report.contains("Diagnostics reporting:"));
    assert_eq!(
        report,
        [
            "ELY Browser Site Compatibility Diagnostics",
            "Build: abc123",
            "Servo: servo 0.1",
            "GPUI: gpui 0.2",
            "Space: Personal",
            "Profile: Default",
            "Profile kind: Standard",
            "Local diagnostics: 1",
            "URL scope: https://example.com",
            "Tab title: Example",
            "Tab state: Sleeping",
            "Site permissions: 2",
            "Permission audit events: 0",
            "Console summary: No console events captured by the current Servo host bridge.",
        ]
        .join("\n")
    );
}

#[test]
fn diagnostic_url_scope_omits_path_and_query() {
    let url = "https://example.com/private/path?token=secret#hash";
    assert_eq!(diagnostic_url_scope(url, Some("https://example.com")), "https://example.com");
}

#[test]
fn diagnostic_url_scope_keeps_internal_route() {
    assert_eq!(diagnostic_url_scope("ely://settings/advanced", None), "ely://settings/advanced");
}

#[test]
fn compatibility_summary_follows_the_tab_state() {
    assert_eq!(
        compatibility_summary_text(&TabState::Ready),
        ("Current page is ready", "Diagnostics omit URL path and query before copying.")
    );
    assert_eq!(compatibility_summary_text(&TabState::Discarded).0, "Current page is sleeping");
    assert_eq!(
        compatibility_summary_text(&TabState::Archived).1,
        "Restore the tab to refresh Servo rendering details."
    );
}
