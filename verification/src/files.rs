//! Single files: whether one can be read, and how large it is.

use crate::text::{failure_of, join};
use vstd::prelude::*;

verus! {

/// What is wrong with a file that is to be read, if anything.
pub open spec fn file_problem(path: Seq<char>, exists: bool) -> Option<Seq<char>> {
    if !exists {
        Some("File not found: "@ + path)
    } else {
        None
    }
}

/// Decides from what the file system says of `file_path` whether the file
/// can be read.
pub fn check_file(file_path: &str, exists: bool) -> (checked: Result<(), String>)
    ensures
        failure_of(checked) == file_problem(file_path@, exists),
{
    if !exists {
        Err(join("File not found: ", file_path))
    } else {
        Ok(())
    }
}

/// Message for a file whose metadata could not be read.
pub fn metadata_failure(error: &str) -> (message: String)
    ensures
        message@ == "Failed to get file metadata: "@ + error@,
{
    join("Failed to get file metadata: ", error)
}

/// The size that is reported for a file of `len` bytes: the same number as
/// a signed integer, which wraps for a length past `i64::MAX`.
pub fn file_size(len: u64) -> (size: i64)
    ensures
        size == len as i64,
        len <= i64::MAX ==> size == len,
{
    len as i64
}

} // verus!
