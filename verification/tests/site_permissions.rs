use ely_app::site_permissions::{
    allowed_count, audit_count, configured_count, decision_for, denied_count,
    feature_scope_label, site_permission_audit_count, site_permission_count, total_allowed_count,
    total_denied_count, SitePermissionAuditEvent, SitePermissionDecision, SitePermissionEntry,
    SitePermissionFeature,
};

fn entry(origin: &str, feature: SitePermissionFeature, decision: SitePermissionDecision) -> SitePermissionEntry {
    SitePermissionEntry { origin: origin.to_string(), feature, decision }
}

#[test]
fn permission_counts_per_origin() {
    let a = "https://a.example".to_string();
    let b = "https://b.example".to_string();
    let entries = vec![
        entry(&a, SitePermissionFeature::Camera, SitePermissionDecision::AllowOnce),
        entry(&a, SitePermissionFeature::Microphone, SitePermissionDecision::DenyAlways),
        entry(&a, SitePermissionFeature::Location, SitePermissionDecision::AllowAlways),
        entry(&b, SitePermissionFeature::Camera, SitePermissionDecision::DenyAlways),
        entry(&a, SitePermissionFeature::Camera, SitePermissionDecision::DenyAlways),
    ];
    assert_eq!(configured_count(&entries, &a), 4);
    assert_eq!(allowed_count(&entries, &a), 2);
    assert_eq!(denied_count(&entries, &a), 2);
    assert_eq!(total_allowed_count(&entries), 2);
    assert_eq!(total_denied_count(&entries), 3);
    assert_eq!(decision_for(&entries, &a, SitePermissionFeature::Camera), Some(SitePermissionDecision::AllowOnce));
    assert_eq!(decision_for(&entries, &b, SitePermissionFeature::Location), None);
    assert_eq!(site_permission_count(&entries, Some(&b)), 1);
    assert_eq!(site_permission_count(&entries, None), 0);
    let events = vec![
        SitePermissionAuditEvent { origin: a.clone() },
        SitePermissionAuditEvent { origin: b.clone() },
        SitePermissionAuditEvent { origin: a.clone() },
    ];
    assert_eq!(audit_count(&events, &a), 2);
    assert_eq!(site_permission_audit_count(&events, Some(&b)), 1);
    assert_eq!(site_permission_audit_count(&events, None), 0);
    assert_eq!(feature_scope_label(SitePermissionFeature::WebUsb), "Controls WebUSB device access.");
}
