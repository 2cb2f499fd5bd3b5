//! The different errors within the crate.
use vstd::prelude::*;

pub use crate::accessor::{AccessorError, AccessorErrorType};
pub use crate::action::{
    ActionError, ActionErrorType, ActionRunError, ActionRunErrorType, ActionValidationError,
    ActionValidationErrorType,
};
pub use crate::backend::fs::{FsError, FsErrorType};
pub use crate::backend::memory::{MemoryError, MemoryErrorType};

verus! {

/// The error that caused another error.
#[derive(Debug)]
pub enum ErrorSource {
    /// An [`ActionError`].
    Action(Box<ActionError>),
    /// An [`ActionValidationError`].
    ActionValidation(Box<ActionValidationError>),
    /// An [`ActionRunError`].
    ActionRun(Box<ActionRunError>),
    /// A [`MemoryError`].
    Memory(Box<MemoryError>),
    /// An [`FsError`].
    Fs(Box<FsError>),
    /// An error of the table-per-file backend.
    FileTable(Box<crate::backends::fs::FsError>),
    /// An [`AccessorError`].
    Accessor(Box<AccessorError>),
    /// An error from outside the library (input and output, or (de)serialization), by its message.
    External(String),
}

/// An error that occurred within the crate.
#[derive(Debug)]
pub struct Error {
    source: Option<ErrorSource>,
    kind: ErrorType,
}

/// The type of [`Error`] that occurred.
#[derive(Debug, Clone, Copy, PartialEq, Eq, Structural)]
pub enum ErrorType {
    /// An error occurred in the memory backend.
    Memory,
    /// An error occurred with a file-system backend.
    Fs,
    /// An [`ActionValidationError`] occurred.
    ActionValidation,
    /// An [`ActionRunError`] occurred.
    ActionRun,
    /// An [`AccessorError`] occurred.
    Accessor,
}

impl Error {
    /// The type of error.
    pub closed spec fn spec_kind(&self) -> ErrorType {
        self.kind
    }

    /// The source error, if any.
    pub closed spec fn spec_source(&self) -> Option<ErrorSource> {
        self.source
    }

    /// Immutable reference to the type of error that occurred.
    pub fn kind(&self) -> (r: &ErrorType)
        ensures
            *r == self.spec_kind(),
    {
        &self.kind
    }

    /// Consume the error, returning the source error if there is any.
    pub fn into_source(self) -> (r: Option<ErrorSource>)
        ensures
            r == self.spec_source(),
    {
        self.source
    }

    /// Consume the error, returning the owned error type and the source error.
    pub fn into_parts(self) -> (r: (ErrorType, Option<ErrorSource>))
        ensures
            r == (self.spec_kind(), self.spec_source()),
    {
        (self.kind, self.source)
    }

    /// The error's message.
    pub fn to_string(&self) -> (s: String)
        ensures
            self.spec_kind() == ErrorType::Memory ==> s@ == "an error occurred with the memory backend"@,
            self.spec_kind() == ErrorType::Fs ==> s@ == "an error occurred with a file-system backend"@,
            self.spec_kind() == ErrorType::ActionRun ==> s@ == "an error occurred running an action"@,
            self.spec_kind() == ErrorType::ActionValidation ==> s@ == "an action is invalid"@,
            self.spec_kind() == ErrorType::Accessor ==> s@ == "an error occurred accessing data"@,
    {
        match self.kind {
            ErrorType::Memory => "an error occurred with the memory backend".to_owned(),
            ErrorType::Fs => "an error occurred with a file-system backend".to_owned(),
            ErrorType::ActionRun => "an error occurred running an action".to_owned(),
            ErrorType::ActionValidation => "an action is invalid".to_owned(),
            ErrorType::Accessor => "an error occurred accessing data".to_owned(),
        }
    }
}

impl From<MemoryError> for Error {
    /// A memory backend error becomes the source of an [`ErrorType::Memory`] error.
    fn from(e: MemoryError) -> (r: Self)
        ensures
            r.spec_kind() == ErrorType::Memory,
            r.spec_source() == Some(ErrorSource::Memory(Box::new(e))),
    {
        Error { source: Some(ErrorSource::Memory(Box::new(e))), kind: ErrorType::Memory }
    }
}

impl vstd::std_specs::convert::FromSpecImpl<MemoryError> for Error {
    open spec fn obeys_from_spec() -> bool {
        true
    }

    closed spec fn from_spec(e: MemoryError) -> Self {
        Error { source: Some(ErrorSource::Memory(Box::new(e))), kind: ErrorType::Memory }
    }
}

impl From<FsError> for Error {
    /// A file-system backend error becomes the source of an [`ErrorType::Fs`] error.
    fn from(e: FsError) -> (r: Self)
        ensures
            r.spec_kind() == ErrorType::Fs,
            r.spec_source() == Some(ErrorSource::Fs(Box::new(e))),
    {
        Error { source: Some(ErrorSource::Fs(Box::new(e))), kind: ErrorType::Fs }
    }
}

impl vstd::std_specs::convert::FromSpecImpl<FsError> for Error {
    open spec fn obeys_from_spec() -> bool {
        true
    }

    closed spec fn from_spec(e: FsError) -> Self {
        Error { source: Some(ErrorSource::Fs(Box::new(e))), kind: ErrorType::Fs }
    }
}

impl From<crate::backends::fs::FsError> for Error {
    /// An error of the table-per-file backend becomes the source of an [`ErrorType::Fs`]
    /// error.
    fn from(e: crate::backends::fs::FsError) -> (r: Self)
        ensures
            r.spec_kind() == ErrorType::Fs,
            r.spec_source() == Some(ErrorSource::FileTable(Box::new(e))),
    {
        Error { source: Some(ErrorSource::FileTable(Box::new(e))), kind: ErrorType::Fs }
    }
}

impl vstd::std_specs::convert::FromSpecImpl<crate::backends::fs::FsError> for Error {
    open spec fn obeys_from_spec() -> bool {
        true
    }

    closed spec fn from_spec(e: crate::backends::fs::FsError) -> Self {
        Error { source: Some(ErrorSource::FileTable(Box::new(e))), kind: ErrorType::Fs }
    }
}

impl From<ActionError> for Error {
    /// An action error is unwrapped: its kind picks the type and its source is kept.
    fn from(e: ActionError) -> (r: Self)
        ensures
            e.spec_kind() == ActionErrorType::Run ==> r.spec_kind() == ErrorType::ActionRun,
            e.spec_kind() == ActionErrorType::Validation ==> r.spec_kind() == ErrorType::ActionValidation,
            r.spec_source() == e.spec_source(),
    {
        let kind = match e.kind() {
            ActionErrorType::Run => ErrorType::ActionRun,
            ActionErrorType::Validation => ErrorType::ActionValidation,
        };
        Error { source: e.into_source(), kind }
    }
}

impl vstd::std_specs::convert::FromSpecImpl<ActionError> for Error {
    open spec fn obeys_from_spec() -> bool {
        true
    }

    closed spec fn from_spec(e: ActionError) -> Self {
        Error {
            source: e.spec_source(),
            kind: match e.spec_kind() {
                ActionErrorType::Run => ErrorType::ActionRun,
                ActionErrorType::Validation => ErrorType::ActionValidation,
            },
        }
    }
}

impl From<ActionValidationError> for Error {
    /// A validation error becomes the source of an [`ErrorType::ActionValidation`] error.
    fn from(e: ActionValidationError) -> (r: Self)
        ensures
            r.spec_kind() == ErrorType::ActionValidation,
            r.spec_source() == Some(ErrorSource::ActionValidation(Box::new(e))),
    {
        Error {
            source: Some(ErrorSource::ActionValidation(Box::new(e))),
            kind: ErrorType::ActionValidation,
        }
    }
}

impl vstd::std_specs::convert::FromSpecImpl<ActionValidationError> for Error {
    open spec fn obeys_from_spec() -> bool {
        true
    }

    closed spec fn from_spec(e: ActionValidationError) -> Self {
        Error {
            source: Some(ErrorSource::ActionValidation(Box::new(e))),
            kind: ErrorType::ActionValidation,
        }
    }
}

impl From<ActionRunError> for Error {
    /// A run error becomes the source of an [`ErrorType::ActionRun`] error.
    fn from(e: ActionRunError) -> (r: Self)
        ensures
            r.spec_kind() == ErrorType::ActionRun,
            r.spec_source() == Some(ErrorSource::ActionRun(Box::new(e))),
    {
        Error { source: Some(ErrorSource::ActionRun(Box::new(e))), kind: ErrorType::ActionRun }
    }
}

impl vstd::std_specs::convert::FromSpecImpl<ActionRunError> for Error {
    open spec fn obeys_from_spec() -> bool {
        true
    }

    closed spec fn from_spec(e: ActionRunError) -> Self {
        Error { source: Some(ErrorSource::ActionRun(Box::new(e))), kind: ErrorType::ActionRun }
    }
}

impl From<AccessorError> for Error {
    /// An accessor error becomes the source of an [`ErrorType::Accessor`] error.
    fn from(e: AccessorError) -> (r: Self)
        ensures
            r.spec_kind() == ErrorType::Accessor,
            r.spec_source() == Some(ErrorSource::Accessor(Box::new(e))),
    {
        Error { source: Some(ErrorSource::Accessor(Box::new(e))), kind: ErrorType::Accessor }
    }
}

impl vstd::std_specs::convert::FromSpecImpl<AccessorError> for Error {
    open spec fn obeys_from_spec() -> bool {
        true
    }

    closed spec fn from_spec(e: AccessorError) -> Self {
        Error { source: Some(ErrorSource::Accessor(Box::new(e))), kind: ErrorType::Accessor }
    }
}

} // verus!
