use ely_app::local_data_files::{
    local_data_export_filename, normalize_export_path, path_has_elydata_extension,
};

#[test]
fn local_data_export_filename_sanitizes_profile_names() {
    assert_eq!(local_data_export_filename("Default"), "Default.elydata");
    assert_eq!(local_data_export_filename("Work / Client"), "Work-Client.elydata");
    assert_eq!(local_data_export_filename("  "), "local-data.elydata");
}

#[test]
fn normalize_export_path_adds_elydata_extension() -> Result<(), String> {
    let path = normalize_export_path("Default".to_string())?;

    assert_eq!(path, "Default.elydata".to_string());
    Ok(())
}

#[test]
fn local_data_files_normalize_export_path_rejects_other_extensions() {
    let error = normalize_export_path("Default.json".to_string());

    assert_eq!(error, Err("Export path must use .elydata extension.".to_string()));
}

#[test]
fn elydata_extension_is_matched_in_any_ascii_case() {
    assert_eq!(normalize_export_path("a/Default.ELYDATA".to_string()), Ok("a/Default.ELYDATA".to_string()));
    assert!(path_has_elydata_extension("x.ElyData"));
    assert!(!path_has_elydata_extension("x.json"));
    assert!(!path_has_elydata_extension("elydata"));
}

#[test]
fn export_filename_keeps_dashes_and_underscores() {
    assert_eq!(local_data_export_filename("a - b"), "a---b.elydata");
    assert_eq!(local_data_export_filename("--x_y--"), "x_y.elydata");
    assert_eq!(local_data_export_filename("Été"), "t.elydata");
}

#[test]
fn export_paths_follow_the_file_name_component() {
    assert_eq!(normalize_export_path("/tmp/export".to_string()).as_deref(), Ok("/tmp/export.elydata"));
    assert_eq!(normalize_export_path(".elydata".to_string()).as_deref(), Ok(".elydata.elydata"));
    assert_eq!(normalize_export_path("a/b/..".to_string()).as_deref(), Ok("a/b/.."));
    assert_eq!(
        normalize_export_path("dir/file.ELYDATA/".to_string()).as_deref(),
        Ok("dir/file.ELYDATA/")
    );
    assert!(normalize_export_path("dir.v2/file.txt".to_string()).is_err());
    assert!(path_has_elydata_extension("x/y.elydata/."));
    assert!(path_has_elydata_extension("x//y.ElyData"));
    assert!(!path_has_elydata_extension("x.elydata/y"));
    assert!(!path_has_elydata_extension(".elydata"));
}
