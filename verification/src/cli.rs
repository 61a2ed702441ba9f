//! Validation of the command-line directory argument: the input
//! directory must exist as a directory before playback starts.

use vstd::prelude::*;

verus! {

#[verifier::external_type_specification]
#[verifier::external_body]
pub struct ExPathBuf(std::path::PathBuf);

/// What `PathBuf::from` builds from a string: a pure function of the
/// characters alone.
pub uninterp spec fn path_of(s: Seq<char>) -> std::path::PathBuf;

/// Relies on PathBuf::from: builds a path value from the string.
#[verifier::external_body]
fn path_from_str(s: &str) -> (p: std::path::PathBuf)
    ensures
        p == path_of(s@),
{
    std::path::PathBuf::from(s)
}

/// Relies on Path::is_dir: asks the filesystem whether the path names
/// an existing directory; the answer depends on the environment.
#[verifier::external_body]
fn path_is_dir(p: &std::path::PathBuf) -> (b: bool) {
    p.is_dir()
}

/// The accept/reject decision for a candidate image directory, taken
/// on the answer the filesystem gave: an existing directory is handed
/// back unchanged, anything else is rejected with the fixed message.
pub fn dir_outcome(path: std::path::PathBuf, is_dir: bool) -> (r: Result<
    std::path::PathBuf,
    String,
>)
    ensures
        is_dir ==> (r matches Ok(p) && p == path),
        !is_dir ==> (r matches Err(m) && m@ == "Not a vaild dir"@),
{
    if is_dir {
        Ok(path)
    } else {
        Err("Not a vaild dir".to_owned())
    }
}

/// Validates a command-line directory argument: the string becomes a
/// path, and the path is accepted exactly when the filesystem reports
/// an existing directory. A rejection always carries the fixed message.
pub fn dir_parser(s: &str) -> (r: Result<std::path::PathBuf, String>)
    ensures
        r matches Ok(p) ==> p == path_of(s@),
        r matches Err(m) ==> m@ == "Not a vaild dir"@,
{
    let path = path_from_str(s);
    let is_dir = path_is_dir(&path);
    dir_outcome(path, is_dir)
}

} // verus!
