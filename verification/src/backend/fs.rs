//! Helpers for file-system based backends.
use vstd::prelude::*;

use std::path::PathBuf;

use crate::error::ErrorSource;
use crate::foreign::{display_path, displayed_path, path_from, path_from_chars, push_path, pushed_path};
use crate::util::{find_last_dot, last_dot, lemma_last_dot_bounds};

verus! {

/// `PathBuf::clone` gives an equal path.
pub assume_specification[ <std::path::PathBuf as Clone>::clone ](p: &std::path::PathBuf) -> (r:
    std::path::PathBuf)
    ensures
        r == *p,
;

/// An error occurred from a file-system backend.
#[derive(Debug)]
pub struct FsError {
    /// Source error, if there was any.
    pub source: Option<ErrorSource>,
    /// Type of [`FsError`] that occurred.
    pub kind: FsErrorType,
}

/// The type of [`FsError`] that occurred.
#[derive(Debug)]
pub enum FsErrorType {
    /// An IO error occurred.
    Io,
    /// The path provided was not a directory.
    PathNotDirectory {
        /// The provided path.
        path: PathBuf,
    },
    /// An error occurred during (de)serialization.
    Serde,
    /// The given file was invalid in some way.
    InvalidFile {
        /// The provided path to the file.
        path: PathBuf,
    },
}

impl FsError {
    /// Immutable reference to the type of error that occurred.
    pub fn kind(&self) -> (r: &FsErrorType)
        ensures
            *r == self.kind,
    {
        &self.kind
    }

    /// Consume the error, returning the source error if there is any.
    pub fn into_source(self) -> (r: Option<ErrorSource>)
        ensures
            r == self.source,
    {
        self.source
    }

    /// Consume the error, returning the owned error type and the source error.
    pub fn into_parts(self) -> (r: (FsErrorType, Option<ErrorSource>))
        ensures
            r == (self.kind, self.source),
    {
        (self.kind, self.source)
    }

    /// The error for a path that was expected to be a directory but is a file.
    pub fn path_not_directory(path: PathBuf) -> (r: Self)
        ensures
            r.kind == (FsErrorType::PathNotDirectory { path }),
            r.source is None,
    {
        FsError { source: None, kind: FsErrorType::PathNotDirectory { path } }
    }

    /// The error's message.
    pub fn to_string(&self) -> (s: String)
        ensures
            self.kind is Io ==> s@ == "an IO error occurred"@,
            self.kind is Serde ==> s@ == "an error occurred during (de)serialization"@,
            self.kind matches FsErrorType::PathNotDirectory { path } ==> s@ == "path "@
                + displayed_path(path) + " is not a directory"@,
            self.kind matches FsErrorType::InvalidFile { path } ==> s@ == "file "@ + displayed_path(
                path,
            ) + " is invalid"@,
    {
        match &self.kind {
            FsErrorType::Io => "an IO error occurred".to_owned(),
            FsErrorType::PathNotDirectory { path } => {
                let mut s = "path ".to_owned();
                let shown = display_path(path);
                s.append(shown.as_str());
                s.append(" is not a directory");
                s
            },
            FsErrorType::Serde => "an error occurred during (de)serialization".to_owned(),
            FsErrorType::InvalidFile { path } => {
                let mut s = "file ".to_owned();
                let shown = display_path(path);
                s.append(shown.as_str());
                s.append(" is invalid");
                s
            },
        }
    }
}

/// The extension of a file name, as `Path::extension` gives it: the text after the last `.`,
/// unless there is no `.`, the only `.` starts the name, or the name is `..`.
pub open spec fn spec_extension(name: Seq<char>) -> Option<Seq<char>> {
    let i = last_dot(name);
    if name == seq!['.', '.'] || i <= 0 {
        None
    } else {
        Some(name.subrange(i + 1, name.len() as int))
    }
}

/// The stem of a file name that has an extension: the text before the last `.`.
pub open spec fn spec_stem(name: Seq<char>) -> Seq<char> {
    name.subrange(0, last_dot(name))
}

/// The name of the file that stores `file_name` with the given extension.
pub open spec fn spec_filename(file_name: Seq<char>, extension: Seq<char>) -> Seq<char> {
    file_name + seq!['.'] + extension
}

/// Joins a key and an extension into a file name: `key.extension`.
pub fn filename(file_name: String, extension: &str) -> (r: String)
    ensures
        r@ == spec_filename(file_name@, extension@),
{
    let dot = ".";
    proof {
        reveal_strlit(".");
    }
    let mut r = file_name;
    r.append(dot);
    r.append(extension);
    r
}

/// The key that a file of a table stored with `extension` holds: the stem of its name when the
/// name has that extension, none otherwise.
pub open spec fn resolved_key(extension: Seq<char>, file_name: Seq<char>) -> Option<Seq<char>> {
    if spec_extension(file_name) == Some(extension) {
        Some(spec_stem(file_name))
    } else {
        None
    }
}

/// Recovers the key stored in a file: the stem of `file_name` when its extension is
/// `extension`, and an [`FsErrorType::InvalidFile`] error naming the file otherwise.
pub fn resolve_key(extension: &str, file_name: &str) -> (r: Result<String, FsError>)
    requires
        file_name@.len() < i64::MAX,
        !file_name@.contains('/'),
    ensures
        match resolved_key(extension@, file_name@) {
            Some(k) => r matches Ok(key) && key@ == k,
            None => r matches Err(e) && e.source is None && e.kind == (FsErrorType::InvalidFile {
                path: path_from_chars(file_name@),
            }),
        },
{
    let i = find_last_dot(file_name);
    proof {
        lemma_last_dot_bounds(file_name@);
        reveal_strlit("..");
    }
    let n = file_name.unicode_len();
    let is_parent = crate::util::str_eq(file_name, "..");
    assert(is_parent == (file_name@ == seq!['.', '.'])) by {
        assert(".."@ =~= seq!['.', '.']);
    }
    if !is_parent && i > 0 {
        let ext = file_name.substring_char((i + 1) as usize, n);
        if crate::util::str_eq(ext, extension) {
            let stem = file_name.substring_char(0, i as usize);
            return Ok(stem.to_owned());
        }
    }
    Err(FsError { source: None, kind: FsErrorType::InvalidFile { path: path_from(file_name) } })
}

} // verus!

verus! {

/// The trait for all file-system based backends to implement.
///
/// This makes it easier to implement different file-system based databases.
pub trait FsBackend {
    /// The base extension of the files.
    const EXTENSION: &'static str;

    /// The directory that holds the backend's tables.
    fn base_directory(&self) -> PathBuf;
}

/// The directory of a new file-system backend: `path` itself, unless it names a file, which
/// is refused with [`FsErrorType::PathNotDirectory`].
pub fn directory_of(path: PathBuf, path_is_file: bool) -> (r: Result<PathBuf, FsError>)
    ensures
        path_is_file <==> r is Err,
        r matches Ok(p) ==> p == path,
        r matches Err(e) ==> e.source is None && e.kind == (FsErrorType::PathNotDirectory { path }),
{
    if path_is_file {
        Err(FsError::path_not_directory(path))
    } else {
        Ok(path)
    }
}

} // verus!

verus! {

/// Whether a file name holds a key of a table stored with `extension`.
pub open spec fn names_key(file_name: Seq<char>, extension: Seq<char>) -> bool {
    spec_extension(file_name) == Some(extension)
}

/// The file of a non-empty key keeps the key: with a non-empty extension that holds no `.`,
/// the file's extension is that extension and its stem is the key, so [`resolve_key`] gives the
/// key back; and when neither holds a `/`, neither does the file's name.
pub proof fn lemma_filename_resolves(key: Seq<char>, extension: Seq<char>)
    requires
        key.len() > 0,
        extension.len() > 0,
        !extension.contains('.'),
    ensures
        spec_extension(spec_filename(key, extension)) == Some(extension),
        spec_stem(spec_filename(key, extension)) == key,
        names_key(spec_filename(key, extension), extension),
        !key.contains('/') && !extension.contains('/') ==> !spec_filename(key, extension).contains(
            '/',
        ),
{
    let name = spec_filename(key, extension);
    let i = key.len() as int;
    if !key.contains('/') && !extension.contains('/') {
        assert forall|j: int| 0 <= j < name.len() implies name[j] != '/' by {
            if j < i {
                assert(name[j] == key[j]);
            } else if j > i {
                assert(name[j] == extension[j - i - 1]);
            }
        }
    }
    assert(name[i] == '.');
    assert forall|j: int| i < j < name.len() implies name[j] != '.' by {
        assert(name[j] == extension[j - i - 1]);
        if name[j] == '.' {
            assert(extension.contains('.'));
        }
    }
    crate::util::lemma_last_dot_is(name, i);
    assert(name.len() >= 3);
    assert(name != seq!['.', '.']);
    assert(name.subrange(i + 1, name.len() as int) =~= extension);
    assert(name.subrange(0, i) =~= key);
}

/// [`resolve_key`] undoes [`filename`]: the file of a non-empty key, stored with a non-empty
/// extension that holds no `.`, gives the key back, and the name holds no `/` when neither the
/// key nor the extension does; a name without the extension gives no key.
pub proof fn lemma_resolve_key_inverts_filename(key: Seq<char>, extension: Seq<char>, other: Seq<char>)
    requires
        key.len() > 0,
        extension.len() > 0,
        !extension.contains('.'),
    ensures
        resolved_key(extension, spec_filename(key, extension)) == Some(key),
        !key.contains('/') && !extension.contains('/') ==> !spec_filename(key, extension).contains(
            '/',
        ),
        !names_key(other, extension) ==> resolved_key(extension, other) is None,
{
    lemma_filename_resolves(key, extension);
}

/// The keys held by the files of a table directory, in the order of `file_names`: the stem of
/// each, when every name has the extension; otherwise the [`FsErrorType::InvalidFile`] error of
/// the first name that does not.
pub fn resolve_keys(extension: &str, file_names: &[String]) -> (r: Result<Vec<String>, FsError>)
    requires
        forall|i: int| 0 <= i < file_names@.len() ==> #[trigger] file_names@[i]@.len() < i64::MAX
            && !file_names@[i]@.contains('/'),
    ensures
        r is Ok <==> forall|i: int| 0 <= i < file_names@.len() ==> names_key(
            #[trigger] file_names@[i]@,
            extension@,
        ),
        r matches Ok(keys) ==> keys@.len() == file_names@.len() && forall|i: int|
            0 <= i < keys@.len() ==> #[trigger] keys@[i]@ == spec_stem(file_names@[i]@),
        r matches Err(e) ==> exists|i: int|
            0 <= i < file_names@.len() && !names_key(#[trigger] file_names@[i]@, extension@)
                && (forall|j: int| 0 <= j < i ==> names_key(#[trigger] file_names@[j]@, extension@))
                && e.source is None && e.kind == (FsErrorType::InvalidFile {
                path: path_from_chars(file_names@[i]@),
            }),
{
    let mut keys: Vec<String> = Vec::new();
    let mut i: usize = 0;
    while i < file_names.len()
        invariant
            i <= file_names@.len(),
            keys@.len() == i,
            forall|j: int| 0 <= j < file_names@.len() ==> #[trigger] file_names@[j]@.len()
                < i64::MAX && !file_names@[j]@.contains('/'),
            forall|j: int| 0 <= j < i ==> names_key(#[trigger] file_names@[j]@, extension@),
            forall|j: int| 0 <= j < i ==> #[trigger] keys@[j]@ == spec_stem(file_names@[j]@),
        decreases file_names@.len() - i,
    {
        let name = &file_names[i];
        assert(name@ == file_names@[i as int]@);
        match resolve_key(extension, name.as_str()) {
            Ok(key) => {
                keys.push(key);
            },
            Err(e) => {
                assert(!names_key(file_names@[i as int]@, extension@));
                return Err(e);
            },
        }
        i += 1;
    }
    Ok(keys)
}

/// The directory of a table: the base directory extended by the table's name.
pub fn table_directory(base: PathBuf, table: &str) -> (r: PathBuf)
    ensures
        r == pushed_path(base, table@),
{
    let mut path = base;
    push_path(&mut path, table);
    path
}

/// The file of an entry: `id.extension` in the table's directory.
pub fn entry_file(base: PathBuf, table: &str, id: &str, extension: &str) -> (r: PathBuf)
    ensures
        r == pushed_path(pushed_path(base, table@), spec_filename(id@, extension@)),
{
    let name = filename(id.to_owned(), extension);
    let mut path = table_directory(base, table);
    push_path(&mut path, name.as_str());
    path
}

} // verus!
