//! The many different results from typed actions.
use vstd::prelude::*;

use super::{ActionKind, OperationTarget};
use crate::error::ErrorSource;

verus! {

/// Trait for all the variants of [`ActionResult`] to convert between a table and an entity
/// result.
pub trait MultiResult: Sized + ResultSealed {
    /// The result type for a table operation.
    type TableResult;

    /// The result type for an entity operation.
    type EntityResult;

    /// The table result, if this is one.
    spec fn spec_table(self) -> Option<Self::TableResult>;

    /// Whether this is an entity result.
    spec fn spec_is_entity(self) -> bool;

    /// Whether `r` is what [`MultiResult::entity`] may return for this result.
    spec fn spec_entity_result(self, r: Self::EntityResult) -> bool;

    /// Whether [`MultiResult::entity`] can run on this result.
    spec fn spec_entity_ready(self) -> bool;

    /// Similar to `Result::ok`, returning the table result if there was one and `None` if not.
    fn table(self) -> (r: Option<Self::TableResult>)
        ensures
            r == self.spec_table(),
    ;

    /// Similar to `Result::ok`, returning the entity result if there was one and `None` if not.
    fn entity(self) -> (r: Option<Self::EntityResult>)
        requires
            self.spec_entity_ready(),
        ensures
            self.spec_is_entity() ==> (r matches Some(v) && self.spec_entity_result(v)),
            !self.spec_is_entity() ==> r is None,
    ;

    /// Similar to `Result::unwrap`, returning the table result of a table operation.
    fn unwrap_table(self) -> (r: Self::TableResult)
        requires
            self.spec_table() is Some,
        ensures
            self.spec_table() == Some(r),
    {
        match self.table() {
            Some(r) => r,
            None => {
                assert(false);
                vstd::pervasive::unreached()
            },
        }
    }

    /// Similar to `Result::unwrap`, returning the entity result of an entity operation.
    fn unwrap_entity(self) -> (r: Self::EntityResult)
        requires
            self.spec_is_entity(),
            self.spec_entity_ready(),
        ensures
            self.spec_entity_result(r),
    {
        match self.entity() {
            Some(r) => r,
            None => {
                assert(false);
                vstd::pervasive::unreached()
            },
        }
    }
}

/// Seals [`MultiResult`]: only the results of this module implement it.
pub trait ResultSealed {

}

impl ResultSealed for CreateResult {

}

impl<T> ResultSealed for ReadResult<T> {

}

impl ResultSealed for UpdateResult {

}

impl ResultSealed for DeleteResult {

}

/// The base result type for typed actions.
#[derive(Debug)]
pub enum ActionResult<T> {
    /// The result from a create.
    Create(CreateResult),
    /// The result from a read.
    Read(ReadResult<T>),
    /// The result from an update.
    Update(UpdateResult),
    /// The result from a delete.
    Delete(DeleteResult),
}

/// The kind of action that a result came from.
pub open spec fn result_kind<T>(r: ActionResult<T>) -> ActionKind {
    match r {
        ActionResult::Create(_) => ActionKind::Create,
        ActionResult::Read(_) => ActionKind::Read,
        ActionResult::Update(_) => ActionKind::Update,
        ActionResult::Delete(_) => ActionKind::Delete,
    }
}

impl<T> ActionResult<T> {
    /// The create result, if this is one.
    pub fn create(self) -> (r: Option<CreateResult>)
        ensures
            match self {
                ActionResult::Create(c) => r == Some(c),
                _ => r is None,
            },
    {
        match self {
            ActionResult::Create(result) => Some(result),
            _ => None,
        }
    }

    /// The read result, if this is one.
    pub fn read(self) -> (r: Option<ReadResult<T>>)
        ensures
            match self {
                ActionResult::Read(c) => r == Some(c),
                _ => r is None,
            },
    {
        match self {
            ActionResult::Read(result) => Some(result),
            _ => None,
        }
    }

    /// The update result, if this is one.
    pub fn update(self) -> (r: Option<UpdateResult>)
        ensures
            match self {
                ActionResult::Update(c) => r == Some(c),
                _ => r is None,
            },
    {
        match self {
            ActionResult::Update(result) => Some(result),
            _ => None,
        }
    }

    /// The delete result, if this is one.
    pub fn delete(self) -> (r: Option<DeleteResult>)
        ensures
            match self {
                ActionResult::Delete(c) => r == Some(c),
                _ => r is None,
            },
    {
        match self {
            ActionResult::Delete(result) => Some(result),
            _ => None,
        }
    }

    /// Returns the [`ActionKind`] that this result represents.
    pub fn kind(&self) -> (r: ActionKind)
        ensures
            r == result_kind(*self),
    {
        match self {
            ActionResult::Create(_) => ActionKind::Create,
            ActionResult::Read(_) => ActionKind::Read,
            ActionResult::Update(_) => ActionKind::Update,
            ActionResult::Delete(_) => ActionKind::Delete,
        }
    }

    /// Returns the create result of a create.
    pub fn unwrap_create(self) -> (r: CreateResult)
        requires
            self is Create,
        ensures
            self == ActionResult::<T>::Create(r),
    {
        match self {
            ActionResult::Create(result) => result,
            _ => vstd::pervasive::unreached(),
        }
    }

    /// Returns the read result of a read.
    pub fn unwrap_read(self) -> (r: ReadResult<T>)
        requires
            self is Read,
        ensures
            self == ActionResult::<T>::Read(r),
    {
        match self {
            ActionResult::Read(result) => result,
            _ => vstd::pervasive::unreached(),
        }
    }

    /// Returns the update result of an update.
    pub fn unwrap_update(self) -> (r: UpdateResult)
        requires
            self is Update,
        ensures
            self == ActionResult::<T>::Update(r),
    {
        match self {
            ActionResult::Update(result) => result,
            _ => vstd::pervasive::unreached(),
        }
    }

    /// Returns the delete result of a delete.
    pub fn unwrap_delete(self) -> (r: DeleteResult)
        requires
            self is Delete,
        ensures
            self == ActionResult::<T>::Delete(r),
    {
        match self {
            ActionResult::Delete(result) => result,
            _ => vstd::pervasive::unreached(),
        }
    }
}

/// A result from a create.
#[derive(Debug)]
pub enum CreateResult {
    /// A table creation result.
    Table(Result<(), CreateError>),
    /// An entity creation result.
    Entity(Result<(), CreateError>),
}

impl MultiResult for CreateResult {
    type EntityResult = Result<(), CreateError>;

    type TableResult = Result<(), CreateError>;

    open spec fn spec_table(self) -> Option<Self::TableResult> {
        match self {
            CreateResult::Table(r) => Some(r),
            _ => None,
        }
    }

    open spec fn spec_is_entity(self) -> bool {
        self is Entity
    }

    open spec fn spec_entity_result(self, r: Self::EntityResult) -> bool {
        self == CreateResult::Entity(r)
    }

    open spec fn spec_entity_ready(self) -> bool {
        true
    }

    fn table(self) -> (r: Option<Self::TableResult>) {
        match self {
            CreateResult::Table(r) => Some(r),
            _ => None,
        }
    }

    fn entity(self) -> (r: Option<Self::EntityResult>) {
        match self {
            CreateResult::Entity(r) => Some(r),
            _ => None,
        }
    }
}

impl CreateResult {
    /// The result, whichever target it was for.
    pub fn into_result(self) -> (r: Result<(), CreateError>)
        ensures
            self == CreateResult::Table(r) || self == CreateResult::Entity(r),
    {
        match self {
            CreateResult::Entity(r) | CreateResult::Table(r) => r,
        }
    }

    /// A reference to the result, whichever target it was for.
    pub fn as_result(&self) -> (r: &Result<(), CreateError>)
        ensures
            *self == CreateResult::Table(*r) || *self == CreateResult::Entity(*r),
    {
        match self {
            CreateResult::Table(r) | CreateResult::Entity(r) => r,
        }
    }
}

/// An error occurred during a create.
#[derive(Debug)]
pub struct CreateError {
    source: ErrorSource,
    target: OperationTarget,
}

impl CreateError {
    /// The target that the error is for.
    pub closed spec fn spec_target(&self) -> OperationTarget {
        self.target
    }

    /// The error that caused this one.
    pub closed spec fn spec_source(&self) -> ErrorSource {
        self.source
    }

    /// An error during the creation of the given target, caused by `source`.
    pub fn new(source: ErrorSource, target: OperationTarget) -> (r: Self)
        ensures
            r.spec_source() == source,
            r.spec_target() == target,
    {
        CreateError { source, target }
    }

    /// The target the create operation was for.
    pub fn target(&self) -> (r: OperationTarget)
        ensures
            r == self.spec_target(),
    {
        self.target
    }

    /// The error's message.
    pub fn to_string(&self) -> (s: String)
        requires
            self.spec_target() != OperationTarget::Unknown,
        ensures
            self.spec_target() == OperationTarget::Table ==> s@
                == "an error happened during Table creation"@,
            self.spec_target() == OperationTarget::Entry ==> s@
                == "an error happened during Entry creation"@,
    {
        let mut s = "an error happened during ".to_owned();
        let t = self.target.to_string();
        s.append(t.as_str());
        s.append(" creation");
        proof {
            reveal_strlit("an error happened during ");
            reveal_strlit(" creation");
            reveal_strlit("Table");
            reveal_strlit("Entry");
            reveal_strlit("an error happened during Table creation");
            reveal_strlit("an error happened during Entry creation");
        }
        assert(self.spec_target() == OperationTarget::Table ==> s@
            =~= "an error happened during Table creation"@);
        assert(self.spec_target() == OperationTarget::Entry ==> s@
            =~= "an error happened during Entry creation"@);
        s
    }
}

/// A result from a read.
#[derive(Debug)]
pub enum ReadResult<T> {
    /// A table read result.
    Table(Result<Vec<T>, ReadError>),
    /// An entry read result; on success it holds the one entry read.
    Entity(Result<Vec<T>, ReadError>),
}

impl<T: Clone> MultiResult for ReadResult<T> {
    type EntityResult = Result<T, ReadError>;

    type TableResult = Result<Vec<T>, ReadError>;

    open spec fn spec_table(self) -> Option<Self::TableResult> {
        match self {
            ReadResult::Table(r) => Some(r),
            _ => None,
        }
    }

    open spec fn spec_is_entity(self) -> bool {
        self is Entity
    }

    open spec fn spec_entity_result(self, r: Self::EntityResult) -> bool {
        match (self, r) {
            (ReadResult::Entity(Ok(v)), Ok(x)) => vstd::pervasive::cloned(v[0], x),
            (ReadResult::Entity(Err(e)), Err(e2)) => e == e2,
            _ => false,
        }
    }

    open spec fn spec_entity_ready(self) -> bool {
        self matches ReadResult::Entity(Ok(v)) ==> v.len() > 0
    }

    fn table(self) -> (r: Option<Self::TableResult>) {
        match self {
            ReadResult::Table(r) => Some(r),
            _ => None,
        }
    }

    fn entity(self) -> (r: Option<Self::EntityResult>) {
        match self {
            ReadResult::Entity(Ok(v)) => Some(Ok(v[0].clone())),
            ReadResult::Entity(Err(e)) => Some(Err(e)),
            _ => None,
        }
    }
}

impl<T> ReadResult<T> {
    /// A reference to the result, whichever target it was for.
    pub fn as_result(&self) -> (r: &Result<Vec<T>, ReadError>)
        ensures
            *self == ReadResult::Table(*r) || *self == ReadResult::Entity(*r),
    {
        match self {
            ReadResult::Table(r) | ReadResult::Entity(r) => r,
        }
    }

    /// The table result of a table read; an [`InvalidTargetError::ExpectedTable`] error
    /// otherwise.
    pub fn try_into_table(self) -> (r: Result<Result<Vec<T>, ReadError>, InvalidTargetError>)
        ensures
            match self {
                ReadResult::Table(t) => r == Ok::<Result<Vec<T>, ReadError>, InvalidTargetError>(t),
                _ => r == Err::<Result<Vec<T>, ReadError>, InvalidTargetError>(
                    InvalidTargetError::ExpectedTable,
                ),
            },
    {
        match self {
            ReadResult::Table(r) => Ok(r),
            _ => Err(InvalidTargetError::ExpectedTable),
        }
    }
}

impl<T: Clone> ReadResult<T> {
    /// The one entry of an entity read; an [`InvalidTargetError::ExpectedEntity`] error
    /// otherwise.
    pub fn try_into_entity(self) -> (r: Result<Result<T, ReadError>, InvalidTargetError>)
        requires
            self matches ReadResult::Entity(Ok(v)) ==> v.len() > 0,
        ensures
            self is Entity ==> (r matches Ok(v) && self.spec_entity_result(v)),
            self is Table ==> r == Err::<Result<T, ReadError>, InvalidTargetError>(
                InvalidTargetError::ExpectedEntity,
            ),
    {
        match self {
            ReadResult::Entity(Ok(v)) => Ok(Ok(v[0].clone())),
            ReadResult::Entity(Err(e)) => Ok(Err(e)),
            _ => Err(InvalidTargetError::ExpectedEntity),
        }
    }
}

/// Represents a conversion error between the targets of a [`ReadResult`].
#[derive(Debug, Clone, Copy, PartialEq, Eq, Structural)]
pub enum InvalidTargetError {
    /// Attempted to take an entity result as a table result.
    ExpectedTable,
    /// Attempted to take a table result as an entity result.
    ExpectedEntity,
}

impl InvalidTargetError {
    /// The error's message.
    pub fn to_string(&self) -> (s: String)
        ensures
            *self == InvalidTargetError::ExpectedTable ==> s@
                == "attempted conversion of entity result into table"@,
            *self == InvalidTargetError::ExpectedEntity ==> s@
                == "attempted conversion of table result into entity"@,
    {
        match self {
            InvalidTargetError::ExpectedTable => "attempted conversion of entity result into table".to_owned(),
            InvalidTargetError::ExpectedEntity => "attempted conversion of table result into entity".to_owned(),
        }
    }
}

/// An error occurred during a read.
#[derive(Debug)]
pub struct ReadError {
    source: ErrorSource,
    target: OperationTarget,
}

impl ReadError {
    /// The target that the error is for.
    pub closed spec fn spec_target(&self) -> OperationTarget {
        self.target
    }

    /// The error that caused this one.
    pub closed spec fn spec_source(&self) -> ErrorSource {
        self.source
    }

    /// An error during a read of the given target, caused by `source`.
    pub fn new(source: ErrorSource, target: OperationTarget) -> (r: Self)
        ensures
            r.spec_source() == source,
            r.spec_target() == target,
    {
        ReadError { source, target }
    }

    /// The target the read operation was for.
    pub fn target(&self) -> (r: OperationTarget)
        ensures
            r == self.spec_target(),
    {
        self.target
    }

    /// The error's message.
    pub fn to_string(&self) -> (s: String)
        requires
            self.spec_target() != OperationTarget::Unknown,
        ensures
            self.spec_target() == OperationTarget::Table ==> s@
                == "an error happened during Table read"@,
            self.spec_target() == OperationTarget::Entry ==> s@
                == "an error happened during Entry read"@,
    {
        let mut s = "an error happened during ".to_owned();
        let t = self.target.to_string();
        s.append(t.as_str());
        s.append(" read");
        proof {
            reveal_strlit("an error happened during ");
            reveal_strlit(" read");
            reveal_strlit("Table");
            reveal_strlit("Entry");
            reveal_strlit("an error happened during Table read");
            reveal_strlit("an error happened during Entry read");
        }
        assert(self.spec_target() == OperationTarget::Table ==> s@
            =~= "an error happened during Table read"@);
        assert(self.spec_target() == OperationTarget::Entry ==> s@
            =~= "an error happened during Entry read"@);
        s
    }
}

/// A result from an update.
#[derive(Debug)]
pub enum UpdateResult {
    /// A table update result.
    Table(Result<(), UpdateError>),
    /// An entity update result.
    Entity(Result<(), UpdateError>),
}

impl MultiResult for UpdateResult {
    type EntityResult = Result<(), UpdateError>;

    type TableResult = Result<(), UpdateError>;

    open spec fn spec_table(self) -> Option<Self::TableResult> {
        match self {
            UpdateResult::Table(r) => Some(r),
            _ => None,
        }
    }

    open spec fn spec_is_entity(self) -> bool {
        self is Entity
    }

    open spec fn spec_entity_result(self, r: Self::EntityResult) -> bool {
        self == UpdateResult::Entity(r)
    }

    open spec fn spec_entity_ready(self) -> bool {
        true
    }

    fn table(self) -> (r: Option<Self::TableResult>) {
        match self {
            UpdateResult::Table(r) => Some(r),
            _ => None,
        }
    }

    fn entity(self) -> (r: Option<Self::EntityResult>) {
        match self {
            UpdateResult::Entity(r) => Some(r),
            _ => None,
        }
    }
}

impl UpdateResult {
    /// The result, whichever target it was for.
    pub fn into_result(self) -> (r: Result<(), UpdateError>)
        ensures
            self == UpdateResult::Table(r) || self == UpdateResult::Entity(r),
    {
        match self {
            UpdateResult::Entity(r) | UpdateResult::Table(r) => r,
        }
    }

    /// A reference to the result, whichever target it was for.
    pub fn as_result(&self) -> (r: &Result<(), UpdateError>)
        ensures
            *self == UpdateResult::Table(*r) || *self == UpdateResult::Entity(*r),
    {
        match self {
            UpdateResult::Table(r) | UpdateResult::Entity(r) => r,
        }
    }
}

/// An error occurred during an update.
#[derive(Debug)]
pub struct UpdateError {
    source: ErrorSource,
    target: OperationTarget,
}

impl UpdateError {
    /// The target that the error is for.
    pub closed spec fn spec_target(&self) -> OperationTarget {
        self.target
    }

    /// The error that caused this one.
    pub closed spec fn spec_source(&self) -> ErrorSource {
        self.source
    }

    /// An error during an update of the given target, caused by `source`.
    pub fn new(source: ErrorSource, target: OperationTarget) -> (r: Self)
        ensures
            r.spec_source() == source,
            r.spec_target() == target,
    {
        UpdateError { source, target }
    }

    /// The target the update operation was for.
    pub fn target(&self) -> (r: OperationTarget)
        ensures
            r == self.spec_target(),
    {
        self.target
    }

    /// The error's message.
    pub fn to_string(&self) -> (s: String)
        requires
            self.spec_target() != OperationTarget::Unknown,
        ensures
            self.spec_target() == OperationTarget::Table ==> s@
                == "an error happened during Table update"@,
            self.spec_target() == OperationTarget::Entry ==> s@
                == "an error happened during Entry update"@,
    {
        let mut s = "an error happened during ".to_owned();
        let t = self.target.to_string();
        s.append(t.as_str());
        s.append(" update");
        proof {
            reveal_strlit("an error happened during ");
            reveal_strlit(" update");
            reveal_strlit("Table");
            reveal_strlit("Entry");
            reveal_strlit("an error happened during Table update");
            reveal_strlit("an error happened during Entry update");
        }
        assert(self.spec_target() == OperationTarget::Table ==> s@
            =~= "an error happened during Table update"@);
        assert(self.spec_target() == OperationTarget::Entry ==> s@
            =~= "an error happened during Entry update"@);
        s
    }
}

/// A result from a delete.
#[derive(Debug)]
pub enum DeleteResult {
    /// A table delete result.
    Table(Result<bool, DeleteError>),
    /// An entity delete result.
    Entity(Result<bool, DeleteError>),
}

impl MultiResult for DeleteResult {
    type EntityResult = Result<bool, DeleteError>;

    type TableResult = Result<bool, DeleteError>;

    open spec fn spec_table(self) -> Option<Self::TableResult> {
        match self {
            DeleteResult::Table(r) => Some(r),
            _ => None,
        }
    }

    open spec fn spec_is_entity(self) -> bool {
        self is Entity
    }

    open spec fn spec_entity_result(self, r: Self::EntityResult) -> bool {
        self == DeleteResult::Entity(r)
    }

    open spec fn spec_entity_ready(self) -> bool {
        true
    }

    fn table(self) -> (r: Option<Self::TableResult>) {
        match self {
            DeleteResult::Table(r) => Some(r),
            _ => None,
        }
    }

    fn entity(self) -> (r: Option<Self::EntityResult>) {
        match self {
            DeleteResult::Entity(r) => Some(r),
            _ => None,
        }
    }
}

impl DeleteResult {
    /// The result, whichever target it was for.
    pub fn into_result(self) -> (r: Result<bool, DeleteError>)
        ensures
            self == DeleteResult::Table(r) || self == DeleteResult::Entity(r),
    {
        match self {
            DeleteResult::Entity(r) | DeleteResult::Table(r) => r,
        }
    }

    /// A reference to the result, whichever target it was for.
    pub fn as_result(&self) -> (r: &Result<bool, DeleteError>)
        ensures
            *self == DeleteResult::Table(*r) || *self == DeleteResult::Entity(*r),
    {
        match self {
            DeleteResult::Table(r) | DeleteResult::Entity(r) => r,
        }
    }
}

/// An error occurred during a delete.
#[derive(Debug)]
pub struct DeleteError {
    source: ErrorSource,
    target: OperationTarget,
}

impl DeleteError {
    /// The target that the error is for.
    pub closed spec fn spec_target(&self) -> OperationTarget {
        self.target
    }

    /// The error that caused this one.
    pub closed spec fn spec_source(&self) -> ErrorSource {
        self.source
    }

    /// An error during a delete of the given target, caused by `source`.
    pub fn new(source: ErrorSource, target: OperationTarget) -> (r: Self)
        ensures
            r.spec_source() == source,
            r.spec_target() == target,
    {
        DeleteError { source, target }
    }

    /// The target the delete operation was for.
    pub fn target(&self) -> (r: OperationTarget)
        ensures
            r == self.spec_target(),
    {
        self.target
    }

    /// The error's message.
    pub fn to_string(&self) -> (s: String)
        requires
            self.spec_target() != OperationTarget::Unknown,
        ensures
            self.spec_target() == OperationTarget::Table ==> s@
                == "an error happened during Table deletion"@,
            self.spec_target() == OperationTarget::Entry ==> s@
                == "an error happened during Entry deletion"@,
    {
        let mut s = "an error happened during ".to_owned();
        let t = self.target.to_string();
        s.append(t.as_str());
        s.append(" deletion");
        proof {
            reveal_strlit("an error happened during ");
            reveal_strlit(" deletion");
            reveal_strlit("Table");
            reveal_strlit("Entry");
            reveal_strlit("an error happened during Table deletion");
            reveal_strlit("an error happened during Entry deletion");
        }
        assert(self.spec_target() == OperationTarget::Table ==> s@
            =~= "an error happened during Table deletion"@);
        assert(self.spec_target() == OperationTarget::Entry ==> s@
            =~= "an error happened during Entry deletion"@);
        s
    }
}

} // verus!
