//! Exporting the keyboard shortcut profile: the export path.
use vstd::prelude::*;

use crate::export_paths::{is_plain_extension, normalize_export_path_with, path_has_extension, extension_matches_spec, is_portable_path, normalized_export_path, path_extension_spec, evident_extension, evident_normalized, is_dotless_file_path};

verus! {

/// The extension of shortcut profiles.
pub const ELYKEYS_FILE_EXTENSION: &'static str = "elykeys";

/// The export path with the `.elykeys` extension, or the refusal of a path
/// that has another extension.
pub fn normalize_export_path(path: String) -> (res: Result<String, String>)
    ensures
        res matches Err(e) ==> e@ == "Export path must use .elykeys extension."@,
        res matches Ok(p) ==> p@ == path@ || p@.skip(p@.len() - 8) == ".elykeys"@,
        !path@.contains('.') ==> res is Ok,
        is_portable_path(path@) ==> normalized_export_path(
            path@,
            "elykeys"@,
            "Export path must use .elykeys extension."@,
            res,
        ),
        evident_extension(path@) is Some ==> evident_normalized(
            path@,
            evident_extension(path@).unwrap(),
            "elykeys"@,
            "Export path must use .elykeys extension."@,
            res,
        ),
        is_dotless_file_path(path@) ==> (res matches Ok(p) && p@ == path@ + ".elykeys"@),
{
    proof {
        reveal_strlit("elykeys");
        assert(is_plain_extension(ELYKEYS_FILE_EXTENSION@));
    }
    let ghost original = path@;
    let res = normalize_export_path_with(path, ELYKEYS_FILE_EXTENSION, "Export path must use .elykeys extension.");
    proof {
        reveal_strlit("elykeys");
        reveal_strlit(".elykeys");
        assert(seq!['.'] + "elykeys"@ =~= ".elykeys"@);
        assert(original + seq!['.'] + "elykeys"@ =~= original + ".elykeys"@);
    }
    res
}

/// Whether `path` carries the `.elykeys` extension, in any ASCII case.
pub fn path_has_elykeys_extension(path: &str) -> (found: bool)
    ensures
        !path@.contains('.') ==> !found,
        is_portable_path(path@) ==> found == extension_matches_spec(path_extension_spec(path@), "elykeys"@),
        evident_extension(path@) is Some ==> found == extension_matches_spec(evident_extension(path@), "elykeys"@),
{
    path_has_extension(path, ELYKEYS_FILE_EXTENSION)
}

/// Whether a selected file may be imported: only `.elykeys` files are read.
pub fn check_import_path(path: &str) -> (res: Result<(), String>)
    ensures
        res matches Err(e) ==> e@ == "Selected file must use .elykeys extension."@,
        !path@.contains('.') ==> res is Err,
        is_portable_path(path@) ==> (res is Ok <==> extension_matches_spec(path_extension_spec(path@), "elykeys"@)),
        evident_extension(path@) is Some ==> (res is Ok <==> extension_matches_spec(evident_extension(path@), "elykeys"@)),
{
    if !path_has_elykeys_extension(path) {
        return Err(String::from_str("Selected file must use .elykeys extension."));
    }
    Ok(())
}

} // verus!
