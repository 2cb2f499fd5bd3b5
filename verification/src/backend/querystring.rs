//! A query-string based backend.
use vstd::prelude::*;

use std::path::PathBuf;

use super::fs::{directory_of, FsBackend, FsError, FsErrorType};

verus! {

/// A query-string based backend.
#[derive(Debug, Default, Clone)]
pub struct QueryStringBackend(PathBuf);

impl QueryStringBackend {
    /// The directory the backend keeps its tables in.
    pub closed spec fn spec_base_directory(&self) -> PathBuf {
        self.0
    }

    /// Create a new [`QueryStringBackend`] over `path`; `path_is_file` tells whether the path names an
    /// existing file.
    ///
    /// # Errors
    ///
    /// Returns an [`FsError`] if the given path is not a directory.
    pub fn new(path: PathBuf, path_is_file: bool) -> (r: Result<Self, FsError>)
        ensures
            path_is_file <==> r is Err,
            r matches Ok(b) ==> b.spec_base_directory() == path,
            r matches Err(e) ==> e.source is None && e.kind == (FsErrorType::PathNotDirectory {
                path,
            }),
    {
        match directory_of(path, path_is_file) {
            Ok(p) => Ok(QueryStringBackend(p)),
            Err(e) => Err(e),
        }
    }
}

impl FsBackend for QueryStringBackend {
    const EXTENSION: &'static str = "qs";

    fn base_directory(&self) -> (r: PathBuf)
        ensures
            r == self.spec_base_directory(),
    {
        self.0.clone()
    }
}

} // verus!
