//! The errors of the file-system backend and its transcoders.
use vstd::prelude::*;

use std::path::PathBuf;

use crate::error::ErrorSource;
use crate::foreign::{display_path, displayed_path};

verus! {

/// An error occurred from the [`FsBackend`](super::FsBackend) or one of its
/// [`Transcoder`](super::Transcoder)s.
#[derive(Debug)]
pub struct FsError {
    pub(super) source: Option<ErrorSource>,
    pub(super) kind: FsErrorType,
}

/// The type of [`FsError`] that occurred.
#[derive(Debug)]
pub enum FsErrorType {
    /// An IO error occurred.
    Io,
    /// The path provided was not a directory.
    PathNotDirectory(PathBuf),
    /// An error occurred during (de)serialization.
    Serde,
    /// The given file was invalid in some way.
    InvalidFile(PathBuf),
}

impl FsError {
    /// The type of error.
    pub closed spec fn spec_kind(&self) -> FsErrorType {
        self.kind
    }

    /// The source error, if any.
    pub closed spec fn spec_source(&self) -> Option<ErrorSource> {
        self.source
    }

    /// Creates an error from a [`Transcoder`](super::Transcoder).
    pub fn serde(err: Option<ErrorSource>) -> (r: Self)
        ensures
            r.spec_kind() is Serde,
            r.spec_source() == err,
    {
        FsError { source: err, kind: FsErrorType::Serde }
    }

    /// An input or output error, described by the failure's message.
    pub fn io(message: String) -> (r: Self)
        ensures
            r.spec_kind() is Io,
            r.spec_source() == Some(ErrorSource::External(message)),
    {
        FsError { source: Some(ErrorSource::External(message)), kind: FsErrorType::Io }
    }

    /// The error for a path that was expected to be a directory but is a file.
    pub fn path_not_directory(path: PathBuf) -> (r: Self)
        ensures
            r.spec_kind() == FsErrorType::PathNotDirectory(path),
            r.spec_source() is None,
    {
        FsError { source: None, kind: FsErrorType::PathNotDirectory(path) }
    }

    /// The error for a file that does not hold a table.
    pub fn invalid_file(path: PathBuf) -> (r: Self)
        ensures
            r.spec_kind() == FsErrorType::InvalidFile(path),
            r.spec_source() is None,
    {
        FsError { source: None, kind: FsErrorType::InvalidFile(path) }
    }

    /// Immutable reference to the type of error that occurred.
    pub fn kind(&self) -> (r: &FsErrorType)
        ensures
            *r == self.spec_kind(),
    {
        &self.kind
    }

    /// Consume the error, returning the source error if there is any.
    pub fn into_source(self) -> (r: Option<ErrorSource>)
        ensures
            r == self.spec_source(),
    {
        self.source
    }

    /// Consume the error, returning the owned error type and the source error.
    pub fn into_parts(self) -> (r: (FsErrorType, Option<ErrorSource>))
        ensures
            r == (self.spec_kind(), self.spec_source()),
    {
        (self.kind, self.source)
    }

    /// The error's message.
    pub fn to_string(&self) -> (s: String)
        ensures
            self.spec_kind() is Io ==> s@ == "an IO error occurred"@,
            self.spec_kind() is Serde ==> s@ == "a (de)serialization error occurred"@,
            self.spec_kind() matches FsErrorType::PathNotDirectory(p) ==> s@ == "path "@
                + displayed_path(p) + " is not a directory"@,
            self.spec_kind() matches FsErrorType::InvalidFile(p) ==> s@ == "file "@
                + displayed_path(p) + " is invalid"@,
    {
        match &self.kind {
            FsErrorType::Io => "an IO error occurred".to_owned(),
            FsErrorType::PathNotDirectory(p) => {
                let mut s = "path ".to_owned();
                let shown = display_path(p);
                s.append(shown.as_str());
                s.append(" is not a directory");
                s
            },
            FsErrorType::Serde => "a (de)serialization error occurred".to_owned(),
            FsErrorType::InvalidFile(p) => {
                let mut s = "file ".to_owned();
                let shown = display_path(p);
                s.append(shown.as_str());
                s.append(" is invalid");
                s
            },
        }
    }
}

} // verus!
