//! Exporting the local data of a profile: the suggested file name and the export path.
use vstd::prelude::*;

use crate::export_paths::{is_plain_extension, export_file_name, export_file_name_for, normalize_export_path_with, path_has_extension, extension_matches_spec, is_portable_path, normalized_export_path, path_extension_spec, evident_extension, evident_normalized, is_dotless_file_path, is_plain_name};

verus! {

/// The extension of local data packages.
pub const ELYDATA_FILE_EXTENSION: &'static str = "elydata";

/// The suggested file name for the local data of the profile `profile_name`.
pub fn local_data_export_filename(profile_name: &str) -> (file_name: String)
    ensures
        file_name@ == export_file_name(profile_name@, "local-data"@, "elydata"@),
        is_plain_name(profile_name@) ==> file_name@ == profile_name@ + seq!['.'] + "elydata"@,
{
    export_file_name_for(profile_name, "local-data", ELYDATA_FILE_EXTENSION)
}

/// The export path with the `.elydata` extension, or the refusal of a path
/// that has another extension.
pub fn normalize_export_path(path: String) -> (res: Result<String, String>)
    ensures
        res matches Err(e) ==> e@ == "Export path must use .elydata extension."@,
        res matches Ok(p) ==> p@ == path@ || p@.skip(p@.len() - 8) == ".elydata"@,
        !path@.contains('.') ==> res is Ok,
        is_portable_path(path@) ==> normalized_export_path(
            path@,
            "elydata"@,
            "Export path must use .elydata extension."@,
            res,
        ),
        evident_extension(path@) is Some ==> evident_normalized(
            path@,
            evident_extension(path@).unwrap(),
            "elydata"@,
            "Export path must use .elydata extension."@,
            res,
        ),
        is_dotless_file_path(path@) ==> (res matches Ok(p) && p@ == path@ + ".elydata"@),
{
    proof {
        reveal_strlit("elydata");
        assert(is_plain_extension(ELYDATA_FILE_EXTENSION@));
    }
    let ghost original = path@;
    let res = normalize_export_path_with(path, ELYDATA_FILE_EXTENSION, "Export path must use .elydata extension.");
    proof {
        reveal_strlit("elydata");
        reveal_strlit(".elydata");
        assert(seq!['.'] + "elydata"@ =~= ".elydata"@);
        assert(original + seq!['.'] + "elydata"@ =~= original + ".elydata"@);
    }
    res
}

/// Whether `path` carries the `.elydata` extension, in any ASCII case.
pub fn path_has_elydata_extension(path: &str) -> (found: bool)
    ensures
        !path@.contains('.') ==> !found,
        is_portable_path(path@) ==> found == extension_matches_spec(path_extension_spec(path@), "elydata"@),
        evident_extension(path@) is Some ==> found == extension_matches_spec(evident_extension(path@), "elydata"@),
{
    path_has_extension(path, ELYDATA_FILE_EXTENSION)
}

} // verus!
