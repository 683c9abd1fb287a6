use vstd::prelude::*;
use vstd::string::StringExecFns;

verus! {

/// What `std::path::Path::extension` yields for the path written as `path`:
/// the part of the final file name after its last dot, if there is one.
pub uninterp spec fn extension_of(path: Seq<char>) -> Option<Seq<char>>;

/// Relies on `std::path::Path::extension`, which splits the path into components
/// and takes the extension of the last file name.
#[verifier::external_body]
fn path_extension(path: &str) -> (r: Option<String>)
    ensures
        match r {
            Some(e) => extension_of(path@) == Some(e@),
            None => extension_of(path@) is None,
        },
{
    std::path::Path::new(path).extension().map(|e| e.to_string_lossy().into_owned())
}

/// An output file must be an MP4 container: its extension is exactly `mp4`.
pub open spec fn is_mp4_extension(extension: Option<Seq<char>>) -> bool {
    extension == Some("mp4"@)
}

/// Whether an extension, as `Path::extension` gives it, names an MP4 file.
pub fn has_mp4_extension(extension: &Option<String>) -> (r: bool)
    ensures
        r == match extension {
            Some(e) => is_mp4_extension(Some(e@)),
            None => is_mp4_extension(None),
        },
{
    match extension {
        Some(e) => *e == String::from_str("mp4"),
        None => false,
    }
}

/// Whether `path` names an MP4 output file.
pub fn validate_path(path: &str) -> (r: bool)
    ensures
        r == is_mp4_extension(extension_of(path@)),
{
    let extension = path_extension(path);
    has_mp4_extension(&extension)
}

} // verus!
