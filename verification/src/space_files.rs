//! Exporting a space: the suggested file name and the export path.
use vstd::prelude::*;

use crate::export_paths::{is_plain_extension, export_file_name, export_file_name_for, normalize_export_path_with, path_has_extension, extension_matches_spec, is_portable_path, normalized_export_path, path_extension_spec, evident_extension, evident_normalized, is_dotless_file_path, is_plain_name};

verus! {

/// The extension of space packages.
pub const ELYSPACE_FILE_EXTENSION: &'static str = "elyspace";

/// The suggested file name for the space `space_name`.
pub fn space_export_filename(space_name: &str) -> (file_name: String)
    ensures
        file_name@ == export_file_name(space_name@, "space"@, "elyspace"@),
        is_plain_name(space_name@) ==> file_name@ == space_name@ + seq!['.'] + "elyspace"@,
{
    export_file_name_for(space_name, "space", ELYSPACE_FILE_EXTENSION)
}

/// The export path with the `.elyspace` extension, or the refusal of a path
/// that has another extension.
pub fn normalize_export_path(path: String) -> (res: Result<String, String>)
    ensures
        res matches Err(e) ==> e@ == "Export path must use .elyspace extension."@,
        res matches Ok(p) ==> p@ == path@ || p@.skip(p@.len() - 9) == ".elyspace"@,
        !path@.contains('.') ==> res is Ok,
        is_portable_path(path@) ==> normalized_export_path(
            path@,
            "elyspace"@,
            "Export path must use .elyspace extension."@,
            res,
        ),
        evident_extension(path@) is Some ==> evident_normalized(
            path@,
            evident_extension(path@).unwrap(),
            "elyspace"@,
            "Export path must use .elyspace extension."@,
            res,
        ),
        is_dotless_file_path(path@) ==> (res matches Ok(p) && p@ == path@ + ".elyspace"@),
{
    proof {
        reveal_strlit("elyspace");
        assert(is_plain_extension(ELYSPACE_FILE_EXTENSION@));
    }
    let ghost original = path@;
    let res = normalize_export_path_with(path, ELYSPACE_FILE_EXTENSION, "Export path must use .elyspace extension.");
    proof {
        reveal_strlit("elyspace");
        reveal_strlit(".elyspace");
        assert(seq!['.'] + "elyspace"@ =~= ".elyspace"@);
        assert(original + seq!['.'] + "elyspace"@ =~= original + ".elyspace"@);
    }
    res
}

/// Whether `path` carries the `.elyspace` extension, in any ASCII case.
pub fn path_has_elyspace_extension(path: &str) -> (found: bool)
    ensures
        !path@.contains('.') ==> !found,
        is_portable_path(path@) ==> found == extension_matches_spec(path_extension_spec(path@), "elyspace"@),
        evident_extension(path@) is Some ==> found == extension_matches_spec(evident_extension(path@), "elyspace"@),
{
    path_has_extension(path, ELYSPACE_FILE_EXTENSION)
}

/// Whether a selected file may be imported: only `.elyspace` files are read.
pub fn check_import_path(path: &str) -> (res: Result<(), String>)
    ensures
        res matches Err(e) ==> e@ == "Selected file must use .elyspace extension."@,
        !path@.contains('.') ==> res is Err,
        is_portable_path(path@) ==> (res is Ok <==> extension_matches_spec(path_extension_spec(path@), "elyspace"@)),
        evident_extension(path@) is Some ==> (res is Ok <==> extension_matches_spec(evident_extension(path@), "elyspace"@)),
{
    if !path_has_elyspace_extension(path) {
        return Err(String::from_str("Selected file must use .elyspace extension."));
    }
    Ok(())
}

/// The notice after importing a space: its name, or "Space" when it
/// cannot be found after the import.
pub fn space_import_notice(space_name: Option<&str>) -> (notice: String)
    ensures
        notice@ == match space_name {
            Some(name) => "Imported "@ + name@,
            None => "Imported Space"@,
        },
{
    match space_name {
        Some(name) => {
            let mut notice = String::from_str("Imported ");
            notice.append(name);
            notice
        },
        None => String::from_str("Imported Space"),
    }
}

} // verus!
