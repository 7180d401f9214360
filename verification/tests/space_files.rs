use ely_app::space_files::{
    check_import_path, normalize_export_path, path_has_elyspace_extension, space_export_filename,
};

#[test]
fn space_export_filename_sanitizes_names() {
    assert_eq!(space_export_filename("Work"), "Work.elyspace");
    assert_eq!(space_export_filename("Client / Research"), "Client-Research.elyspace");
    assert_eq!(space_export_filename("  "), "space.elyspace");
}

#[test]
fn normalize_export_path_adds_missing_extension() -> Result<(), String> {
    let path = normalize_export_path("Work".to_string())?;

    assert_eq!(path, "Work.elyspace".to_string());
    Ok(())
}

#[test]
fn space_files_normalize_export_path_rejects_other_extensions() {
    let error = normalize_export_path("Work.json".to_string());

    assert_eq!(error, Err("Export path must use .elyspace extension.".to_string()));
}

#[test]
fn elyspace_extension_check() {
    assert!(path_has_elyspace_extension("Work.elyspace"));
    assert!(!path_has_elyspace_extension("Work"));
}

#[test]
fn only_elyspace_files_are_imported() {
    assert!(check_import_path("/home/me/work.elyspace").is_ok());
    assert!(check_import_path("work.ELYSPACE").is_ok());
    assert!(check_import_path("/home/me/work.elykeys").is_err());
    assert!(check_import_path("/home/me/work.elyspace/..").is_err());
}
