use ely_app::profiles::{profile_allows_sync_controls, ProfileKind};

#[test]
fn sync_private_profile_hides_sync_controls() {
    assert!(!profile_allows_sync_controls(&ProfileKind::Private));
    assert!(profile_allows_sync_controls(&ProfileKind::Standard));
}

#[test]
fn sync_tests_private_profile_hides_sync_controls() {
    assert!(!profile_allows_sync_controls(&ProfileKind::Private));
    assert!(profile_allows_sync_controls(&ProfileKind::Standard));
}
