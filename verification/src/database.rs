//! Databases of settings: the decisions a database makes between the calls to its backend.
use vstd::prelude::*;

verus! {

/// An error that can be returned when setting up or using a database.
#[derive(Debug)]
pub enum DatabaseError<E> {
    /// An invalid generic type was passed.
    InvalidType,
    /// An error occurred from the backend.
    ///
    /// This will match the error type of the backend.
    Backend(E),
    /// An expected value wasn't found in the database.
    ValueDoesntExist,
}

impl<E> DatabaseError<E> {
    /// The error's message; a backend error is described by the backend's own message, which
    /// the caller passes as `backend_message`.
    pub fn to_string(&self, backend_message: String) -> (s: String)
        ensures
            self is InvalidType ==> s@ == "an invalid type was passed"@,
            self is ValueDoesntExist ==> s@ == "the expected value doesn't exist in the database"@,
            self is Backend ==> s@ == backend_message@,
    {
        match self {
            DatabaseError::InvalidType => "an invalid type was passed".to_owned(),
            DatabaseError::Backend(_) => backend_message,
            DatabaseError::ValueDoesntExist => "the expected value doesn't exist in the database".to_owned(),
        }
    }
}

impl<E> From<E> for DatabaseError<E> {
    /// A backend error.
    fn from(e: E) -> (r: Self)
        ensures
            r == DatabaseError::Backend(e),
    {
        DatabaseError::Backend(e)
    }
}

impl<E> vstd::std_specs::convert::FromSpecImpl<E> for DatabaseError<E> {
    open spec fn obeys_from_spec() -> bool {
        true
    }

    open spec fn from_spec(e: E) -> Self {
        DatabaseError::Backend(e)
    }
}

/// The write that a database makes to store a value.
#[derive(Debug, Clone, Copy, PartialEq, Eq, Structural)]
pub enum DatabaseWrite {
    /// `create(table, key, value)`.
    Create,
    /// `update(table, key, value)`.
    Update,
    /// `replace(table, key, value)`.
    Replace,
}

/// Checks that the type a database is used with is the type it was created with.
///
/// # Errors
///
/// Returns [`DatabaseError::InvalidType`] when the types differ.
pub fn check_type<E>(same_type: bool) -> (r: Result<(), DatabaseError<E>>)
    ensures
        same_type <==> r is Ok,
        r matches Err(e) ==> e is InvalidType,
{
    if same_type {
        Ok(())
    } else {
        Err(DatabaseError::InvalidType)
    }
}

/// The write that `set` makes: it overwrites whatever was there, replacing an existing value
/// and creating a missing one.
pub fn set_write(exists: bool) -> (w: DatabaseWrite)
    ensures
        exists ==> w == DatabaseWrite::Replace,
        !exists ==> w == DatabaseWrite::Create,
{
    if exists {
        DatabaseWrite::Replace
    } else {
        DatabaseWrite::Create
    }
}

/// The write that `update` makes: an existing value is updated in place.
///
/// # Errors
///
/// Returns [`DatabaseError::ValueDoesntExist`] when there is no value to update.
pub fn update_write<E>(exists: bool) -> (r: Result<DatabaseWrite, DatabaseError<E>>)
    ensures
        exists ==> r == Ok::<DatabaseWrite, DatabaseError<E>>(DatabaseWrite::Update),
        !exists ==> (r matches Err(e) && e is ValueDoesntExist),
{
    if exists {
        Ok(DatabaseWrite::Update)
    } else {
        Err(DatabaseError::ValueDoesntExist)
    }
}

/// The write that `replace` makes: an existing value is replaced.
///
/// # Errors
///
/// Returns [`DatabaseError::ValueDoesntExist`] when there is no value to replace.
pub fn replace_write<E>(exists: bool) -> (r: Result<DatabaseWrite, DatabaseError<E>>)
    ensures
        exists ==> r == Ok::<DatabaseWrite, DatabaseError<E>>(DatabaseWrite::Replace),
        !exists ==> (r matches Err(e) && e is ValueDoesntExist),
{
    if exists {
        Ok(DatabaseWrite::Replace)
    } else {
        Err(DatabaseError::ValueDoesntExist)
    }
}

} // verus!
