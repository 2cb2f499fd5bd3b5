//! The action structs for CRUD operations.
use vstd::prelude::*;

use core::marker::PhantomData;

mod dynamic;
mod error;
mod kind;
mod operation;
mod result;
mod run;
mod target;

pub use self::dynamic::{ActionField, ActionFields, ActionFieldsView, FieldError, lemma_action_text_round_trip, spec_action_text, spec_parse_action, split_dots, DynamicAction, DynamicView};
pub use self::error::{
    ActionError, ActionErrorType, ActionRunError, ActionRunErrorType, ActionValidationError,
    ActionValidationErrorType,
};
pub use self::kind::{lemma_kind_name_round_trip, ActionKind};
pub use self::operation::{
    CreateOperation, CrudOperation, DeleteOperation, EntryTarget, OperationTarget, ReadOperation,
    Sealed, TableTarget, UpdateOperation,
};
pub use self::result::ActionResult;
pub use self::run::{
    finishes_failed, finishes_invalid, finishes_refused, finishes_with, keys_without_metadata, request_is, requests_all, run_operation, spec_run_operation, stage_rank, RequestCall, string_views, without_metadata, reply_fits, ActionRun,
    BackendReply, BackendRequest, RunOperation, RunStage, RunStep,
};
pub use self::target::{lemma_target_name_round_trip, TargetKind};

use crate::entry::{entry_key_text, is_entry_key_text, is_key_text, IndexEntry, Key};
use crate::util::{is_metadata, metadata_key};

verus! {

/// The characters of an optional string slice.
pub open spec fn opt_str_view(o: Option<&str>) -> Option<Seq<char>> {
    match o {
        Some(s) => Some(s@),
        None => None,
    }
}

/// The characters of an optional string.
pub open spec fn opt_string_view(o: Option<String>) -> Option<Seq<char>> {
    match o {
        Some(s) => Some(s@),
        None => None,
    }
}

/// The error, if any, that checking a name gives: `missing` when there is no name, and
/// [`ActionValidationErrorType::Metadata`] when the name is the reserved metadata key.
pub open spec fn name_problem(
    name: Option<Seq<char>>,
    missing: ActionValidationErrorType,
) -> Option<ActionValidationErrorType> {
    match name {
        None => Some(missing),
        Some(n) => if n == metadata_key() {
            Some(ActionValidationErrorType::Metadata)
        } else {
            None
        },
    }
}

/// A name that has been set passes its check exactly when it is not the reserved metadata
/// key; the key [`METADATA_KEY`](crate::METADATA_KEY) itself fails with
/// [`ActionValidationErrorType::Metadata`], and no name at all fails with `missing`.
pub proof fn lemma_set_name_checks(name: Seq<char>, missing: ActionValidationErrorType)
    ensures
        name_problem(Some(name), missing) is None <==> name != metadata_key(),
        name == metadata_key() ==> name_problem(Some(name), missing) == Some(
            ActionValidationErrorType::Metadata,
        ),
        name_problem(None, missing) == Some(missing),
{
}

/// The error, if any, that checking an optional key against the metadata key gives.
pub open spec fn metadata_problem(key: Option<Seq<char>>) -> Option<ActionValidationErrorType> {
    match key {
        Some(k) => if k == metadata_key() {
            Some(ActionValidationErrorType::Metadata)
        } else {
            None
        },
        None => None,
    }
}

/// Whether a validation result is the one that `expected` describes: success when there is no
/// problem, and a source-less error of the expected type otherwise.
pub open spec fn validation_outcome(
    r: Result<(), ActionValidationError>,
    expected: Option<ActionValidationErrorType>,
) -> bool {
    match expected {
        None => r is Ok,
        Some(k) => r matches Err(e) && e.is_plain(k),
    }
}

/// The first problem of two checks made in order.
pub open spec fn first_problem(
    a: Option<ActionValidationErrorType>,
    b: Option<ActionValidationErrorType>,
) -> Option<ActionValidationErrorType> {
    if a is Some {
        a
    } else {
        b
    }
}

/// What an action holds: its table, key and data.
pub struct ActionView<S> {
    /// The table, if set.
    pub table: Option<Seq<char>>,
    /// The key, if set.
    pub key: Option<Seq<char>>,
    /// The data, if set.
    pub data: Option<S>,
}

impl<S> ActionView<S> {
    /// The problem that table validation finds.
    pub open spec fn table_problem(self) -> Option<ActionValidationErrorType> {
        name_problem(self.table, ActionValidationErrorType::Table)
    }

    /// The problem that key validation finds.
    pub open spec fn key_problem(self) -> Option<ActionValidationErrorType> {
        name_problem(self.key, ActionValidationErrorType::Key)
    }

    /// The problem that data validation finds.
    pub open spec fn data_problem(self) -> Option<ActionValidationErrorType> {
        if self.data is None {
            Some(ActionValidationErrorType::Data)
        } else {
            None
        }
    }

    /// The problem that entry validation finds: the key's, then the data's.
    pub open spec fn entry_problem(self) -> Option<ActionValidationErrorType> {
        first_problem(self.key_problem(), self.data_problem())
    }
}

/// The state shared by every action: the data, key and table that it acts on.
#[derive(Debug)]
pub struct InnerAction<'a, S> {
    /// The data, if set.
    pub data: Option<&'a S>,
    /// The key, if set.
    pub key: Option<String>,
    /// The table, if set.
    pub table: Option<&'a str>,
}

impl<'a, S> View for InnerAction<'a, S> {
    type V = ActionView<S>;

    open spec fn view(&self) -> ActionView<S> {
        ActionView {
            table: opt_str_view(self.table),
            key: opt_string_view(self.key),
            data: match self.data {
                Some(d) => Some(*d),
                None => None,
            },
        }
    }
}

impl<'a, S> InnerAction<'a, S> {
    /// An action state with nothing set.
    pub fn new() -> (r: Self)
        ensures
            r@.table is None,
            r@.key is None,
            r@.data is None,
    {
        InnerAction { data: None, key: None, table: None }
    }

    /// Validates that both the key and data are set, the key first.
    pub fn validate_entry(&self) -> (r: Result<(), ActionValidationError>)
        ensures
            validation_outcome(r, self@.entry_problem()),
    {
        self.validate_key()?;
        self.validate_data()
    }

    /// Validates that the table is set and is not the metadata key.
    pub fn validate_table(&self) -> (r: Result<(), ActionValidationError>)
        ensures
            validation_outcome(r, self@.table_problem()),
    {
        if self.table.is_none() {
            return Err(ActionValidationError::new(ActionValidationErrorType::Table));
        }
        self.validate_metadata(self.table)
    }

    /// Validates that the data is set.
    pub fn validate_data(&self) -> (r: Result<(), ActionValidationError>)
        ensures
            validation_outcome(r, self@.data_problem()),
    {
        if self.data.is_none() {
            return Err(ActionValidationError::new(ActionValidationErrorType::Data));
        }
        Ok(())
    }

    /// Validates that the key is set and is not the metadata key.
    pub fn validate_key(&self) -> (r: Result<(), ActionValidationError>)
        ensures
            validation_outcome(r, self@.key_problem()),
    {
        match &self.key {
            None => Err(ActionValidationError::new(ActionValidationErrorType::Key)),
            Some(k) => self.validate_metadata(Some(k.as_str())),
        }
    }

    /// Validates that `key` is not the metadata key.
    pub fn validate_metadata(&self, key: Option<&str>) -> (r: Result<(), ActionValidationError>)
        ensures
            validation_outcome(r, metadata_problem(opt_str_view(key))),
    {
        match key {
            Some(k) => if is_metadata(k) {
                Err(ActionValidationError::new(ActionValidationErrorType::Metadata))
            } else {
                Ok(())
            },
            None => Ok(()),
        }
    }
}

impl<'a, S> Default for InnerAction<'a, S> {
    /// An action state with nothing set.
    fn default() -> (r: Self)
        ensures
            r@.table is None,
            r@.key is None,
            r@.data is None,
    {
        Self::new()
    }
}

impl<'a, S> Clone for InnerAction<'a, S> {
    /// A copy of the state: the same data reference, key and table.
    fn clone(&self) -> (r: Self)
        ensures
            r == *self,
    {
        InnerAction {
            data: self.data,
            key: match &self.key {
                Some(k) => Some(k.clone()),
                None => None,
            },
            table: self.table,
        }
    }
}

/// An action for easy CRUD operations within a chart, typed by its operation `C` and target `T`.
#[derive(Debug)]
pub struct Action<'a, S, C, T> {
    pub(crate) inner: InnerAction<'a, S>,
    kind: PhantomData<C>,
    target: PhantomData<T>,
}

/// A type alias for an [`Action`] with [`CreateOperation`] and [`EntryTarget`] as the parameters.
pub type CreateEntryAction<'a, S> = Action<'a, S, CreateOperation, EntryTarget>;

/// A type alias for an [`Action`] with [`ReadOperation`] and [`EntryTarget`] as the parameters.
pub type ReadEntryAction<'a, S> = Action<'a, S, ReadOperation, EntryTarget>;

/// A type alias for an [`Action`] with [`UpdateOperation`] and [`EntryTarget`] as the parameters.
pub type UpdateEntryAction<'a, S> = Action<'a, S, UpdateOperation, EntryTarget>;

/// A type alias for an [`Action`] with [`DeleteOperation`] and [`EntryTarget`] as the parameters.
pub type DeleteEntryAction<'a, S> = Action<'a, S, DeleteOperation, EntryTarget>;

/// A type alias for an [`Action`] with [`CreateOperation`] and [`TableTarget`] as the parameters.
pub type CreateTableAction<'a, S> = Action<'a, S, CreateOperation, TableTarget>;

/// A type alias for an [`Action`] with [`ReadOperation`] and [`TableTarget`] as the parameters.
pub type ReadTableAction<'a, S> = Action<'a, S, ReadOperation, TableTarget>;

/// A type alias for an [`Action`] with [`UpdateOperation`] and [`TableTarget`] as the parameters.
///
/// This action can never be run.
pub type UpdateTableAction<'a, S> = Action<'a, S, UpdateOperation, TableTarget>;

/// A type alias for an [`Action`] with [`DeleteOperation`] and [`TableTarget`] as the parameters.
pub type DeleteTableAction<'a, S> = Action<'a, S, DeleteOperation, TableTarget>;

impl<'a, S, C, T> View for Action<'a, S, C, T> {
    type V = ActionView<S>;

    closed spec fn view(&self) -> ActionView<S> {
        self.inner@
    }
}

impl<'a, S, C, T> Action<'a, S, C, T> {
    /// The state that the action carries.
    pub closed spec fn spec_inner(&self) -> InnerAction<'a, S> {
        self.inner
    }

    /// Creates a new [`Action`] with nothing set.
    pub fn new() -> (r: Self)
        ensures
            r@.table is None,
            r@.key is None,
            r@.data is None,
    {
        Action { inner: InnerAction::new(), kind: PhantomData, target: PhantomData }
    }

    /// Makes an action from its state.
    pub fn from_inner(inner: InnerAction<'a, S>) -> (r: Self)
        ensures
            r.spec_inner() == inner,
            r@ == inner@,
    {
        Action { inner, kind: PhantomData, target: PhantomData }
    }

    /// Get a reference to the currently set table.
    pub fn table(&self) -> (r: Option<&str>)
        ensures
            opt_str_view(r) == self@.table,
    {
        self.inner.table
    }

    /// Get a reference to the currently set key.
    pub fn key(&self) -> (r: Option<&str>)
        ensures
            opt_str_view(r) == self@.key,
    {
        match &self.inner.key {
            Some(k) => Some(k.as_str()),
            None => None,
        }
    }
}

impl<'a, S, C: CrudOperation, T: OperationTarget> Action<'a, S, C, T> {
    /// Get a reference to the currently set data.
    pub fn data(&self) -> (r: Option<&S>)
        ensures
            match r {
                Some(d) => self@.data == Some(*d),
                None => self@.data is None,
            },
    {
        self.inner.data
    }

    /// Returns the [`ActionKind`] we will be performing with said action.
    pub fn kind(&self) -> (k: ActionKind)
        ensures
            k == C::spec_kind(),
    {
        C::kind()
    }

    /// Returns the [`TargetKind`] we will be performing with said action.
    pub fn target(&self) -> (t: TargetKind)
        ensures
            t == T::spec_target(),
    {
        T::target()
    }

    /// Sets the table for this action.
    pub fn set_table(&mut self, table_name: &'a str) -> (r: &mut Self)
        ensures
            r@.table == Some(table_name@),
            r@.key == old(self)@.key,
            r@.data == old(self)@.data,
            *final(self) == *final(r),
    {
        self.inner.table = Some(table_name);
        self
    }

    /// Validates that the table is set and is not the metadata key.
    pub fn validate_table(&self) -> (r: Result<(), ActionValidationError>)
        ensures
            validation_outcome(r, self@.table_problem()),
    {
        self.inner.validate_table()
    }

    /// Validates that the key is not the private metadata key.
    pub fn validate_metadata(&self, key: Option<&str>) -> (r: Result<(), ActionValidationError>)
        ensures
            validation_outcome(r, metadata_problem(opt_str_view(key))),
    {
        self.inner.validate_metadata(key)
    }
}

impl<'a, S, C: CrudOperation> Action<'a, S, C, EntryTarget> {
    /// Sets the key for the action, as the key's [`Key::to_key`] text.
    pub fn set_key<K: Key + ?Sized>(&mut self, key: &K) -> (r: &mut Self)
        ensures
            r@.key matches Some(t) && is_key_text(key, t),
            r@.table == old(self)@.table,
            r@.data == old(self)@.data,
            *final(self) == *final(r),
    {
        self.set_key_string(key.to_key())
    }

    /// Sets the key text for the action.
    pub fn set_key_string(&mut self, key: String) -> (r: &mut Self)
        ensures
            r@.key == Some(key@),
            r@.table == old(self)@.table,
            r@.data == old(self)@.data,
            *final(self) == *final(r),
    {
        self.inner.key = Some(key);
        self
    }

    /// Sets the data for the action.
    pub fn set_data(&mut self, entity: &'a S) -> (r: &mut Self)
        ensures
            r@.data == Some(*entity),
            r@.table == old(self)@.table,
            r@.key == old(self)@.key,
            *final(self) == *final(r),
    {
        self.inner.data = Some(entity);
        self
    }

    /// Validates that the key is set and is not the metadata key.
    pub fn validate_key(&self) -> (r: Result<(), ActionValidationError>)
        ensures
            validation_outcome(r, self@.key_problem()),
    {
        self.inner.validate_key()
    }

    /// Validates that the data is set.
    pub fn validate_data(&self) -> (r: Result<(), ActionValidationError>)
        ensures
            validation_outcome(r, self@.data_problem()),
    {
        self.inner.validate_data()
    }

    /// Validates that both the key and data have been set.
    pub fn validate_entry(&self) -> (r: Result<(), ActionValidationError>)
        ensures
            validation_outcome(r, self@.entry_problem()),
    {
        self.inner.validate_entry()
    }
}

impl<'a, S: IndexEntry, C: CrudOperation> Action<'a, S, C, EntryTarget> {
    /// Sets the entry and its key that this [`Action`] will act over.
    pub fn set_entry(&mut self, entity: &'a S) -> (r: &mut Self)
        ensures
            r@.key matches Some(t) && is_entry_key_text(entity, t),
            r@.data == Some(*entity),
            r@.table == old(self)@.table,
            *final(self) == *final(r),
    {
        self.inner.key = Some(entry_key_text(entity));
        self.inner.data = Some(entity);
        self
    }
}

impl<'a, S> Action<'a, S, CreateOperation, TableTarget> {
    /// Creates a new [`CreateOperation`] based [`TableTarget`] operation.
    pub fn create_table() -> (r: Self)
        ensures
            r@.table is None,
            r@.key is None,
            r@.data is None,
    {
        Self::new()
    }
}

impl<'a, S> Action<'a, S, ReadOperation, TableTarget> {
    /// Creates a new [`ReadOperation`] based [`TableTarget`] operation.
    pub fn read_table() -> (r: Self)
        ensures
            r@.table is None,
            r@.key is None,
            r@.data is None,
    {
        Self::new()
    }
}

impl<'a, S> Action<'a, S, DeleteOperation, TableTarget> {
    /// Creates a new [`DeleteOperation`] based [`TableTarget`] operation.
    pub fn delete_table() -> (r: Self)
        ensures
            r@.table is None,
            r@.key is None,
            r@.data is None,
    {
        Self::new()
    }
}

impl<'a, S> Action<'a, S, CreateOperation, EntryTarget> {
    /// Creates a new [`CreateOperation`] based [`EntryTarget`] operation.
    pub fn create_entry() -> (r: Self)
        ensures
            r@.table is None,
            r@.key is None,
            r@.data is None,
    {
        Self::new()
    }
}

impl<'a, S> Action<'a, S, ReadOperation, EntryTarget> {
    /// Creates a new [`ReadOperation`] based [`EntryTarget`] operation.
    pub fn read_entry() -> (r: Self)
        ensures
            r@.table is None,
            r@.key is None,
            r@.data is None,
    {
        Self::new()
    }
}

impl<'a, S> Action<'a, S, UpdateOperation, EntryTarget> {
    /// Creates a new [`UpdateOperation`] based [`EntryTarget`] operation.
    pub fn update_entry() -> (r: Self)
        ensures
            r@.table is None,
            r@.key is None,
            r@.data is None,
    {
        Self::new()
    }
}

impl<'a, S> Action<'a, S, DeleteOperation, EntryTarget> {
    /// Creates a new [`DeleteOperation`] based [`EntryTarget`] operation.
    pub fn delete_entry() -> (r: Self)
        ensures
            r@.table is None,
            r@.key is None,
            r@.data is None,
    {
        Self::new()
    }
}

impl<'a, S, C, T> Clone for Action<'a, S, C, T> {
    /// A copy of the action, acting on the same data, key and table.
    fn clone(&self) -> (r: Self)
        ensures
            r@ == self@,
    {
        Action { inner: self.inner.clone(), kind: PhantomData, target: PhantomData }
    }
}

impl<'a, S, C, T> Default for Action<'a, S, C, T> {
    /// An action with nothing set.
    fn default() -> (r: Self)
        ensures
            r@.table is None,
            r@.key is None,
            r@.data is None,
    {
        Self::new()
    }
}

} // verus!
