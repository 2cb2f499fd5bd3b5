//! A binary backend built on bincode.
use vstd::prelude::*;

use std::path::PathBuf;

use super::fs::{directory_of, FsBackend, FsError, FsErrorType};

verus! {

#[verifier::external_type_specification]
#[verifier::external_body]
pub struct ExDefaultOptions(bincode::DefaultOptions);

/// bincode's default configuration; nothing is claimed of the value.
pub assume_specification[ bincode::DefaultOptions::new ]() -> bincode::DefaultOptions;

/// A binary backend, encoding with the bincode options it holds.
#[derive(Debug, Clone)]
pub struct BincodeBackend<O>(PathBuf, O);

impl BincodeBackend<bincode::DefaultOptions> {
    /// Create a new [`BincodeBackend`] with the default options over `path`; `path_is_file`
    /// tells whether the path names an existing file.
    ///
    /// # Errors
    ///
    /// Returns an [`FsError`] if the given path is not a directory.
    pub fn new(path: PathBuf, path_is_file: bool) -> (r: Result<Self, FsError>)
        ensures
            path_is_file <==> r is Err,
            r matches Ok(b) ==> b.spec_base_directory() == path,
            r matches Err(e) ==> e.source is None && e.kind == (FsErrorType::PathNotDirectory {
                path,
            }),
    {
        Self::with_options(path, bincode::DefaultOptions::new(), path_is_file)
    }
}

impl<O> BincodeBackend<O> {
    /// The directory the backend keeps its tables in.
    pub closed spec fn spec_base_directory(&self) -> PathBuf {
        self.0
    }

    /// The options the backend encodes with.
    pub closed spec fn spec_options(&self) -> O {
        self.1
    }

    /// Create a new [`BincodeBackend`] with the given options over `path`; `path_is_file`
    /// tells whether the path names an existing file.
    ///
    /// # Errors
    ///
    /// Returns an [`FsError`] if the given path is not a directory.
    pub fn with_options(path: PathBuf, options: O, path_is_file: bool) -> (r: Result<Self, FsError>)
        ensures
            path_is_file <==> r is Err,
            r matches Ok(b) ==> b.spec_base_directory() == path && b.spec_options() == options,
            r matches Err(e) ==> e.source is None && e.kind == (FsErrorType::PathNotDirectory {
                path,
            }),
    {
        match directory_of(path, path_is_file) {
            Ok(p) => Ok(BincodeBackend(p, options)),
            Err(e) => Err(e),
        }
    }

    /// The options the backend encodes with.
    pub fn options(&self) -> (r: &O)
        ensures
            *r == self.spec_options(),
    {
        &self.1
    }
}

impl<O> FsBackend for BincodeBackend<O> {
    const EXTENSION: &'static str = "bin";

    fn base_directory(&self) -> (r: PathBuf)
        ensures
            r == self.spec_base_directory(),
    {
        self.0.clone()
    }
}

} // verus!
