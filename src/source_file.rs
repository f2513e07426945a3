//! Acceptance of the source-file argument: an existing file with the `.rs`
//! extension.

use vstd::prelude::*;

verus! {

/// The message for a path that names no existing file.
pub open spec fn missing_file_message() -> Seq<char> {
    "The file does not exist"@
}

/// The message for a path whose extension is not `rs`.
pub open spec fn wrong_extension_message() -> Seq<char> {
    "Only .rs files are allowed"@
}

/// Relies on std::path::Path::extension, with OsStr::to_str, for the extension
/// of the path's last component. How a path splits into components depends on
/// the platform, so nothing is stated of the result.
#[verifier::external_body]
fn path_extension(s: &str) -> (r: Option<String>) {
    match std::path::Path::new(s).extension() {
        Some(e) => e.to_str().map(str::to_string),
        None => None,
    }
}

/// Decides the source-file argument from whether it names an existing file
/// and from its extension: a missing file is refused first, then any
/// extension other than `rs`; an accepted path is handed back unchanged.
pub fn check_rs_file(s: &str, is_file: bool, extension: Option<&str>) -> (r: Result<String, String>)
    ensures
        !is_file ==> r is Err && r->Err_0@ == missing_file_message(),
        is_file && extension is Some && extension->0@ == "rs"@ ==> r is Ok && r->Ok_0@ == s@,
        is_file && !(extension is Some && extension->0@ == "rs"@) ==> r is Err && r->Err_0@
            == wrong_extension_message(),
{
    if !is_file {
        return Err(String::from_str("The file does not exist"));
    }
    let rs_extension = match extension {
        Some(e) => String::from_str(e) == String::from_str("rs"),
        None => false,
    };
    if !rs_extension {
        return Err(String::from_str("Only .rs files are allowed"));
    }
    Ok(String::from_str(s))
}

/// Validates the source-file argument `s`, where `is_file` tells whether it
/// names an existing regular file. The extension is read from the path itself.
pub fn validate_rs_file(s: &str, is_file: bool) -> (r: Result<String, String>)
    ensures
        !is_file ==> r is Err && r->Err_0@ == missing_file_message(),
        is_file ==> (r is Ok && r->Ok_0@ == s@) || (r is Err && r->Err_0@ == wrong_extension_message()),
{
    let extension = path_extension(s);
    match extension {
        Some(e) => check_rs_file(s, is_file, Some(e.as_str())),
        None => check_rs_file(s, is_file, None),
    }
}

} // verus!
