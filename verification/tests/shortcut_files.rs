use ely_app::shortcut_files::{check_import_path, normalize_export_path, path_has_elykeys_extension};

#[test]
fn normalize_export_path_adds_elykeys_extension() -> Result<(), String> {
    let path = normalize_export_path("ELY Shortcuts".to_string())?;

    assert_eq!(path, "ELY Shortcuts.elykeys".to_string());
    Ok(())
}

#[test]
fn shortcut_files_normalize_export_path_rejects_other_extensions() {
    let error = normalize_export_path("shortcuts.json".to_string());

    assert_eq!(error, Err("Export path must use .elykeys extension.".to_string()));
}

#[test]
fn elykeys_extension_check() {
    assert!(path_has_elykeys_extension("ELY Shortcuts.elykeys"));
    assert!(path_has_elykeys_extension("keys.ELYKEYS"));
    assert!(!path_has_elykeys_extension("keys.json"));
}

#[test]
fn export_path_extension_goes_after_the_file_name() {
    assert_eq!(normalize_export_path("dir/keys/".to_string()).as_deref(), Ok("dir/keys.elykeys"));
    assert_eq!(normalize_export_path("dir/keys/.".to_string()).as_deref(), Ok("dir/keys.elykeys"));
    let normalized = normalize_export_path("dir/keys/".to_string()).unwrap();
    assert_eq!(normalize_export_path(normalized.clone()).as_deref(), Ok(normalized.as_str()));
    assert!(normalize_export_path("C:\\x\\keys.json".to_string()).is_err());
    assert_eq!(
        normalize_export_path("C:\\x\\keys.ELYKEYS".to_string()).as_deref(),
        Ok("C:\\x\\keys.ELYKEYS")
    );
}

#[test]
fn only_elykeys_files_are_imported() {
    assert!(check_import_path("/home/me/keys.elykeys").is_ok());
    assert!(check_import_path("/home/me/keys.ElyKeys").is_ok());
    assert_eq!(
        check_import_path("/home/me/keys.elyspace"),
        Err("Selected file must use .elykeys extension.".to_string())
    );
    assert!(check_import_path("/home/me/keys").is_err());
}

#[test]
fn windows_dialog_paths_get_the_extension() {
    assert_eq!(
        normalize_export_path("C:\\Users\\me\\keys".to_string()).as_deref(),
        Ok("C:\\Users\\me\\keys.elykeys")
    );
    let normalized = normalize_export_path("C:\\Users\\me\\keys".to_string()).unwrap();
    assert_eq!(normalize_export_path(normalized.clone()).as_deref(), Ok(normalized.as_str()));
    assert!(path_has_elykeys_extension(&normalized));
}
