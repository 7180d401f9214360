use ely_app::plugin_install::{InstallStep, PluginInstallFlow};
use ely_app::plugins::{
    featured_plugin, high_risk_permissions_label, high_risk_plugin_count, matches_plugin,
    plugin_audit_action_label, plugin_cover_bucket, plugin_cover_initial, plugin_detail_route,
    plugin_high_risk_count_label, plugin_permission_count_label, plugin_status_label,
    sandbox_chip_label, PluginAuditAction,
    PluginListing,
};

fn plugin(name: &str, risky: bool) -> PluginListing {
    PluginListing {
        name: name.to_string(),
        author: "Elydora".to_string(),
        description: "Reads the Page".to_string(),
        has_high_risk_permissions: risky,
        enabled_for_profile: !risky,
    }
}

#[test]
fn plugin_search_and_risk() {
    let plugins = vec![plugin("Dark Reader", false), plugin("Tab Saver", true)];
    assert!(matches_plugin(&plugins[0], ""));
    assert!(matches_plugin(&plugins[0], "dark"));
    assert!(matches_plugin(&plugins[0], "elydora"));
    assert!(matches_plugin(&plugins[0], "page"));
    assert!(!matches_plugin(&plugins[0], "Dark"));
    assert!(!matches_plugin(&plugins[1], "dark"));
    assert_eq!(high_risk_plugin_count(&plugins), 1);
    assert_eq!(sandbox_chip_label(&plugins), "Audit needed");
    assert_eq!(sandbox_chip_label(&plugins[..1]), "Sandboxed");
    assert_eq!(plugin_audit_action_label(&PluginAuditAction::Enabled), "Enabled");
    assert_eq!(
        high_risk_permissions_label(&vec!["tabs".to_string(), "history".to_string()]),
        "High risk permissions: tabs, history"
    );
    assert_eq!(high_risk_permissions_label(&vec![]), "High risk permissions: ");
}

#[test]
fn cover_bucket_sums_name_bytes() {
    let expected = |name: &str| name.bytes().fold(0u32, |acc, b| acc.wrapping_add(b as u32)) as usize % 8;
    for name in ["", "Dark Reader", "Été", "zzzzzzzzzzzzzzzzzzzz"] {
        assert_eq!(plugin_cover_bucket(name), expected(name));
    }
}

#[test]
fn featured_plugin_prefers_enabled_ones() {
    let plugins = vec![plugin("Risky", true), plugin("Calm", false)];
    assert_eq!(featured_plugin(&plugins), Some(1));
    assert_eq!(featured_plugin(&plugins[..1]), Some(0));
    assert_eq!(featured_plugin(&[]), None);
}

#[test]
fn risky_packages_wait_for_confirmation() {
    let mut flow: PluginInstallFlow<&str> = PluginInstallFlow::new();
    match flow.install_manifest("risky", vec!["tabs".to_string()], false) {
        InstallStep::AwaitConfirmation => {}
        other => panic!("unexpected step {other:?}"),
    }
    assert!(flow.pending.is_some());
    match flow.install_manifest("calm", vec![], false) {
        InstallStep::Install { manifest, high_risk_confirmed } => {
            assert_eq!(manifest, "calm");
            assert!(!high_risk_confirmed);
        }
        other => panic!("unexpected step {other:?}"),
    }
    assert_eq!(flow.confirm(), Some("risky"));
    assert!(flow.pending.is_none());
    assert_eq!(flow.confirm(), None);
    flow.finish_install(Err("denied".to_string()));
    assert_eq!(flow.error.as_deref(), Some("denied"));
    flow.finish_install(Ok(()));
    assert!(flow.error.is_none());
    flow.install_manifest("risky", vec!["tabs".to_string()], false);
    flow.package_failed("broken".to_string());
    assert!(flow.pending.is_none());
    flow.install_manifest("risky", vec!["tabs".to_string()], false);
    flow.cancel();
    assert!(flow.pending.is_none());
}

#[test]
fn plugin_card_text() {
    assert_eq!(plugin_detail_route("reader-mode"), "ely://plugin/reader-mode");
    assert_eq!(plugin_status_label(true), "Enabled");
    assert_eq!(plugin_status_label(false), "Disabled");
    assert_eq!(plugin_cover_initial("reader"), "R");
    assert_eq!(plugin_cover_initial("\u{df}ber"), "SS");
    assert_eq!(plugin_cover_initial(""), "\u{25C7}");
    assert_eq!(plugin_permission_count_label(3), "3 permissions");
    assert_eq!(plugin_high_risk_count_label(0), "0 high risk");
}

#[test]
fn reordered_names_share_a_cover() {
    assert_eq!(plugin_cover_bucket("ab"), plugin_cover_bucket("ba"));
    assert_eq!(plugin_cover_bucket("reader"), plugin_cover_bucket("redear"));
    assert_eq!(plugin_cover_bucket(""), 0);
}
