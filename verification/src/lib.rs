//! The logic of the ELY browser shell: labels and previews of the internal
//! pages, export file names and paths, the Markdown note preview, the
//! sign-in callback, and the state of local saves, sync uploads, sync reports,
//! sync devices and plugin installs.

pub mod advanced;
pub mod appearance;
pub mod auth_callback;
pub mod cloud_upload;
pub mod command;
pub mod downloads;
pub mod export_paths;
pub mod file_messages;
pub mod labels;
pub mod local_data_files;
pub mod local_state_save;
pub mod markdown;
pub mod notes;
pub mod plugin_install;
pub mod plugins;
pub mod profiles;
pub mod reading_list;
pub mod routes;
pub mod shortcut_files;
pub mod sidebar_tabs;
pub mod site_compatibility;
pub mod site_permissions;
pub mod space_files;
pub mod spaces;
pub mod sync;
pub mod sync_devices;
pub mod sync_updates;
pub mod tab_context;
pub mod text;
pub mod time;
