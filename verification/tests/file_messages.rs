use ely_app::file_messages::FileMessages;
use ely_app::shortcut_files;
use ely_app::space_files::{self, space_import_notice};

#[test]
fn file_messages_show_one_line() {
    let mut messages = FileMessages::new();
    messages.set_error("failed".to_string());
    messages.set_notice("done".to_string());
    assert_eq!(messages.error, None);
    assert_eq!(messages.notice.as_deref(), Some("done"));
    messages.handle_export_result(Ok("/tmp/Work.elyspace".to_string()));
    assert_eq!(messages.notice.as_deref(), Some("Exported /tmp/Work.elyspace"));
    messages.handle_export_result(Err("Unable to write".to_string()));
    assert_eq!(messages.error.as_deref(), Some("Unable to write"));
    assert_eq!(messages.notice, None);
    messages.clear();
    assert_eq!(messages, FileMessages::new());
}

#[test]
fn imports_need_the_package_extension() {
    assert_eq!(shortcut_files::check_import_path("keys.elykeys"), Ok(()));
    assert_eq!(
        shortcut_files::check_import_path("keys.json"),
        Err("Selected file must use .elykeys extension.".to_string())
    );
    assert_eq!(
        space_files::check_import_path("Work"),
        Err("Selected file must use .elyspace extension.".to_string())
    );
    assert_eq!(space_import_notice(Some("Work")), "Imported Work");
    assert_eq!(space_import_notice(None), "Imported Space");
}
