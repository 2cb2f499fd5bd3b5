//! Types of std and of other crates that the library carries without looking inside.
use vstd::prelude::*;

verus! {

#[verifier::external_type_specification]
#[verifier::external_body]
pub struct ExPathBuf(std::path::PathBuf);

#[verifier::external_type_specification]
#[verifier::external_body]
pub struct ExSerializerError(serde_value::SerializerError);

#[verifier::external_type_specification]
#[verifier::external_body]
pub struct ExDeserializerError(serde_value::DeserializerError);

/// The text of a path as `Path::display` renders it.
pub uninterp spec fn displayed_path(p: std::path::PathBuf) -> Seq<char>;

/// The path made from a string.
pub uninterp spec fn path_from_chars(s: Seq<char>) -> std::path::PathBuf;

/// Renders a path for messages.
///
/// Calls `Path::display` and writes the result out; the contract claims only that the text
/// depends on the path alone.
#[verifier::external_body]
pub(crate) fn display_path(p: &std::path::PathBuf) -> (s: String)
    ensures
        s@ == displayed_path(*p),
{
    p.display().to_string()
}

/// Makes a path from a string with `PathBuf::from`; the contract claims that the path depends
/// on the string alone.
#[verifier::external_body]
pub(crate) fn path_from(s: &str) -> (p: std::path::PathBuf)
    ensures
        p == path_from_chars(s@),
{
    std::path::PathBuf::from(s)
}

} // verus!

verus! {

/// The path `base` joined with `part`, as `Path::join` makes it.
pub uninterp spec fn joined_path(base: std::path::PathBuf, part: Seq<char>) -> std::path::PathBuf;

/// The path `base` extended by `part`, as `PathBuf::push` makes it.
pub uninterp spec fn pushed_path(base: std::path::PathBuf, part: Seq<char>) -> std::path::PathBuf;

/// Calls `Path::join`; the contract claims that the result depends on the two arguments alone.
#[verifier::external_body]
pub(crate) fn join_path(base: &std::path::PathBuf, part: &str) -> (r: std::path::PathBuf)
    ensures
        r == joined_path(*base, part@),
{
    base.join(part)
}

/// Calls `PathBuf::push`; the contract claims that the new path depends on the old one and
/// `part` alone.
#[verifier::external_body]
pub(crate) fn push_path(base: &mut std::path::PathBuf, part: &str)
    ensures
        *final(base) == pushed_path(*old(base), part@),
{
    base.push(part);
}

} // verus!
