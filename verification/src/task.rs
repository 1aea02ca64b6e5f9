//! Transfer tasks: what to fetch, where to put it, and how to recognise it.

use vstd::prelude::*;

verus! {

/// One file to fetch. A task is never changed once it has been created.
#[derive(Debug, Clone)]
pub struct DownloadTask {
    /// Where the file is fetched from.
    pub url: String,
    /// Where the file is written to.
    pub path: String,
    /// Lowercase hex SHA-1 digest of the expected content, if it is known.
    pub sha1: Option<String>,
}

/// What the engine reads of a task: the digest it expects, if any.
pub open spec fn expected_digest(task: DownloadTask) -> Option<Seq<char>> {
    match task.sha1 {
        Some(text) => Some(text@),
        None => None,
    }
}

/// `std::path::Path::file_name`, with the name turned into text as
/// `to_string_lossy` does. How a path splits into components depends on
/// the platform, so nothing is claimed of the result.
#[verifier::external_body]
pub(crate) fn path_file_name(path: &str) -> (name: Option<String>) {
    match std::path::Path::new(path).file_name() {
        Some(name) => Some(name.to_string_lossy().into_owned()),
        None => None,
    }
}

} // verus!
