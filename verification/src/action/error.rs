use vstd::prelude::*;

use crate::error::ErrorSource;

verus! {

/// A general `Action` error: either a validation or a run error.
#[derive(Debug)]
pub struct ActionError {
    source: Option<ErrorSource>,
    kind: ActionErrorType,
}

/// The type of [`ActionError`] that occurred.
#[derive(Debug, Clone, Copy, PartialEq, Eq, Structural)]
pub enum ActionErrorType {
    /// An error occurred while running the action.
    Run,
    /// A validation error has occurred.
    Validation,
}

impl ActionError {
    /// The type of error.
    pub closed spec fn spec_kind(&self) -> ActionErrorType {
        self.kind
    }

    /// The source error, if any.
    pub closed spec fn spec_source(&self) -> Option<ErrorSource> {
        self.source
    }

    /// Immutable reference to the type of error that occurred.
    pub fn kind(&self) -> (r: &ActionErrorType)
        ensures
            *r == self.spec_kind(),
    {
        &self.kind
    }

    /// Consume the error, returning the source error if there is any.
    pub fn into_source(self) -> (r: Option<ErrorSource>)
        ensures
            r == self.spec_source(),
    {
        self.source
    }

    /// Consume the error, returning the owned error type and the source error.
    pub fn into_parts(self) -> (r: (ActionErrorType, Option<ErrorSource>))
        ensures
            r == (self.spec_kind(), self.spec_source()),
    {
        (self.kind, self.source)
    }

    /// The error's message.
    pub fn to_string(&self) -> (s: String)
        ensures
            self.spec_kind() == ActionErrorType::Run ==> s@ == "a run error occurred"@,
            self.spec_kind() == ActionErrorType::Validation ==> s@ == "a validation error occurred"@,
    {
        match self.kind {
            ActionErrorType::Run => "a run error occurred".to_owned(),
            ActionErrorType::Validation => "a validation error occurred".to_owned(),
        }
    }
}

impl From<ActionRunError> for ActionError {
    /// A run error becomes the source of a [`ActionErrorType::Run`] error.
    fn from(err: ActionRunError) -> (r: Self)
        ensures
            r.spec_kind() == ActionErrorType::Run,
            r.spec_source() == Some(ErrorSource::ActionRun(Box::new(err))),
    {
        ActionError { source: Some(ErrorSource::ActionRun(Box::new(err))), kind: ActionErrorType::Run }
    }
}

impl vstd::std_specs::convert::FromSpecImpl<ActionRunError> for ActionError {
    open spec fn obeys_from_spec() -> bool {
        true
    }

    closed spec fn from_spec(err: ActionRunError) -> Self {
        ActionError { source: Some(ErrorSource::ActionRun(Box::new(err))), kind: ActionErrorType::Run }
    }
}

impl From<ActionValidationError> for ActionError {
    /// A validation error becomes the source of a [`ActionErrorType::Validation`] error.
    fn from(err: ActionValidationError) -> (r: Self)
        ensures
            r.spec_kind() == ActionErrorType::Validation,
            r.spec_source() == Some(ErrorSource::ActionValidation(Box::new(err))),
    {
        ActionError {
            source: Some(ErrorSource::ActionValidation(Box::new(err))),
            kind: ActionErrorType::Validation,
        }
    }
}

impl vstd::std_specs::convert::FromSpecImpl<ActionValidationError> for ActionError {
    open spec fn obeys_from_spec() -> bool {
        true
    }

    closed spec fn from_spec(err: ActionValidationError) -> Self {
        ActionError {
            source: Some(ErrorSource::ActionValidation(Box::new(err))),
            kind: ActionErrorType::Validation,
        }
    }
}

/// An error occurred during validation of an `Action`.
#[derive(Debug)]
pub struct ActionValidationError {
    pub(crate) source: Option<ErrorSource>,
    pub(crate) kind: ActionValidationErrorType,
}

/// The type of [`ActionValidationError`] that occurred.
#[derive(Debug, Clone, Copy, PartialEq, Eq, Structural)]
pub enum ActionValidationErrorType {
    /// Data was missing when it was expected.
    Data,
    /// A key was missing when it was expected.
    Key,
    /// The table was missing.
    Table,
    /// The table or key name matched the private metadata key.
    Metadata,
    /// An invalid generic was passed during conversion.
    Conversion,
    /// The provided string was invalid.
    Parse,
}

impl ActionValidationError {
    /// A validation error of the given type, without a source.
    pub open spec fn is_plain(&self, kind: ActionValidationErrorType) -> bool {
        self.spec_kind() == kind && self.spec_source() is None
    }

    /// The source error, if any.
    pub closed spec fn spec_source(&self) -> Option<ErrorSource> {
        self.source
    }

    /// The type of error.
    pub closed spec fn spec_kind(&self) -> ActionValidationErrorType {
        self.kind
    }

    /// Creates an error of the given type, without a source.
    pub fn new(kind: ActionValidationErrorType) -> (r: Self)
        ensures
            r.is_plain(kind),
    {
        ActionValidationError { source: None, kind }
    }

    /// Immutable reference to the type of error that occurred.
    pub fn kind(&self) -> (r: &ActionValidationErrorType)
        ensures
            *r == self.spec_kind(),
    {
        &self.kind
    }

    /// Consume the error, returning the source error if there is any.
    pub fn into_source(self) -> (r: Option<ErrorSource>)
        ensures
            r == self.spec_source(),
    {
        self.source
    }

    /// Consume the error, returning the owned error type and the source error.
    pub fn into_parts(self) -> (r: (ActionValidationErrorType, Option<ErrorSource>))
        ensures
            r == (self.spec_kind(), self.spec_source()),
    {
        (self.kind, self.source)
    }

    /// The error's message.
    pub fn to_string(&self) -> (s: String)
        ensures
            self.spec_kind() == ActionValidationErrorType::Data ==> s@
                == "no data was given when data was expected"@,
            self.spec_kind() == ActionValidationErrorType::Key ==> s@
                == "no key was given when a key was expected"@,
            self.spec_kind() == ActionValidationErrorType::Table ==> s@ == "no table was provided"@,
            self.spec_kind() == ActionValidationErrorType::Metadata ==> s@
                == "the `__metadata__` key is restricted"@,
            self.spec_kind() == ActionValidationErrorType::Conversion ==> s@
                == "an error occurred converting between dynamic and static actions"@,
            self.spec_kind() == ActionValidationErrorType::Parse ==> s@ == "couldn't parse action data"@,
    {
        match self.kind {
            ActionValidationErrorType::Data => "no data was given when data was expected".to_owned(),
            ActionValidationErrorType::Key => "no key was given when a key was expected".to_owned(),
            ActionValidationErrorType::Table => "no table was provided".to_owned(),
            ActionValidationErrorType::Metadata => "the `__metadata__` key is restricted".to_owned(),
            ActionValidationErrorType::Conversion => {
                "an error occurred converting between dynamic and static actions".to_owned()
            },
            ActionValidationErrorType::Parse => "couldn't parse action data".to_owned(),
        }
    }
}

/// An error that occurred from running an `Action`.
#[derive(Debug)]
pub struct ActionRunError {
    pub(crate) source: Option<ErrorSource>,
    pub(crate) kind: ActionRunErrorType,
}

/// The type of [`ActionRunError`] that occurred.
#[derive(Debug)]
pub enum ActionRunErrorType {
    /// An error occurred with a backend method.
    Backend,
    /// A value did not match the table's metadata.
    Metadata {
        /// The name of the type that didn't match.
        entry_type: &'static str,
        /// The table metadata to match against.
        table_name: String,
    },
}

impl ActionRunError {
    /// The type of error.
    pub closed spec fn spec_kind(&self) -> ActionRunErrorType {
        self.kind
    }

    /// The source error, if any.
    pub closed spec fn spec_source(&self) -> Option<ErrorSource> {
        self.source
    }

    /// Creates a run error of the given type with the given source.
    pub fn new(kind: ActionRunErrorType, source: Option<ErrorSource>) -> (r: Self)
        ensures
            r.spec_kind() == kind,
            r.spec_source() == source,
    {
        ActionRunError { source, kind }
    }

    /// Immutable reference to the type of error that occurred.
    pub fn kind(&self) -> (r: &ActionRunErrorType)
        ensures
            *r == self.spec_kind(),
    {
        &self.kind
    }

    /// Consume the error, returning the source error if there is any.
    pub fn into_source(self) -> (r: Option<ErrorSource>)
        ensures
            r == self.spec_source(),
    {
        self.source
    }

    /// Consume the error, returning the owned error type and the source error.
    pub fn into_parts(self) -> (r: (ActionRunErrorType, Option<ErrorSource>))
        ensures
            r == (self.spec_kind(), self.spec_source()),
    {
        (self.kind, self.source)
    }

    /// The error's message.
    pub fn to_string(&self) -> (s: String)
        ensures
            self.spec_kind() is Backend ==> s@ == "an error occurred within the backend"@,
            self.spec_kind() matches ActionRunErrorType::Metadata { entry_type, table_name } ==> s@
                == "invalid entry was provided, "@ + entry_type@
                + "does not match the metadata for table "@ + table_name@,
    {
        match &self.kind {
            ActionRunErrorType::Backend => "an error occurred within the backend".to_owned(),
            ActionRunErrorType::Metadata { entry_type, table_name } => {
                let mut s = "invalid entry was provided, ".to_owned();
                s.append(entry_type);
                s.append("does not match the metadata for table ");
                s.append(table_name.as_str());
                s
            },
        }
    }
}

} // verus!
