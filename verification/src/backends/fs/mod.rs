//! The file-system based backend: each table is one file, written and read through a
//! [`Transcoder`].
use vstd::prelude::*;

use std::path::PathBuf;

use crate::backend::fs::{filename, spec_filename};
use crate::foreign::{join_path, joined_path};

mod binary;
mod error;
mod json;
mod toml;
pub mod transcoders;
mod yaml;

pub use self::error::{FsError, FsErrorType};

verus! {

/// The transcoder trait for transforming data for the [`FsBackend`].
///
/// The (de)serializing half of a transcoder works on the entry types of its users, through
/// serde; what the backend decides with is the extension of its files.
pub trait Transcoder {
    /// The extension of the files the transcoder writes.
    spec fn spec_extension(&self) -> Seq<char>;

    /// Gives the extension for the current transcoder.
    fn extension(&self) -> (r: &'static str)
        ensures
            r@ == self.spec_extension(),
    ;
}

/// An fs-based backend, keeping each table in one file under its base directory.
#[derive(Debug, Default, Clone)]
pub struct FsBackend<T> {
    transcoder: T,
    base_directory: PathBuf,
}

impl<T: Transcoder> FsBackend<T> {
    /// The transcoder of the backend.
    pub closed spec fn spec_transcoder(&self) -> T {
        self.transcoder
    }

    /// The directory that holds the tables' files.
    pub closed spec fn spec_base_directory(&self) -> PathBuf {
        self.base_directory
    }

    /// Creates a new [`FsBackend`] over `base_directory`; `path_is_file` tells whether the path
    /// names an existing file.
    ///
    /// # Errors
    ///
    /// Returns an error if the provided path is not a directory.
    pub fn new(transcoder: T, base_directory: PathBuf, path_is_file: bool) -> (r: Result<
        Self,
        FsError,
    >)
        ensures
            path_is_file <==> r is Err,
            r matches Ok(b) ==> b.spec_transcoder() == transcoder && b.spec_base_directory()
                == base_directory,
            r matches Err(e) ==> e.spec_source() is None && e.spec_kind()
                == FsErrorType::PathNotDirectory(base_directory),
    {
        if path_is_file {
            Err(FsError::path_not_directory(base_directory))
        } else {
            Ok(FsBackend { transcoder, base_directory })
        }
    }

    /// Base directory for the [`FsBackend`].
    pub fn base_directory(&self) -> (r: &PathBuf)
        ensures
            *r == self.spec_base_directory(),
    {
        &self.base_directory
    }

    /// Extension used for tables.
    pub fn extension(&self) -> (r: &str)
        ensures
            r@ == self.spec_transcoder().spec_extension(),
    {
        self.transcoder().extension()
    }

    /// Reference to the [`Transcoder`].
    pub fn transcoder(&self) -> (r: &T)
        ensures
            *r == self.spec_transcoder(),
    {
        &self.transcoder
    }

    /// The file that holds a table: `table.extension` in the base directory.
    pub fn table_path(&self, table: &str) -> (r: PathBuf)
        ensures
            r == joined_path(
                self.spec_base_directory(),
                spec_filename(table@, self.spec_transcoder().spec_extension()),
            ),
    {
        let name = filename(table.to_owned(), self.extension());
        join_path(&self.base_directory, name.as_str())
    }
}

} // verus!
