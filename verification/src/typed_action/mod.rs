//! Actions typed by their operation and target, validated before they run, and the results
//! they give.
use vstd::prelude::*;

use core::marker::PhantomData;

mod result;

pub use self::result::{
    ActionResult, CreateError, CreateResult, DeleteError, DeleteResult, InvalidTargetError,
    MultiResult, ReadError, ReadResult, UpdateError, UpdateResult,
};
pub use crate::action::{
    ActionKind, CreateOperation, CrudOperation, DeleteOperation, EntryTarget, ReadOperation,
    Sealed, TableTarget, UpdateOperation,
};
use crate::action::{opt_string_view};
use crate::entry::{entry_key_text, is_entry_key_text, is_key_text, IndexEntry, Key};

verus! {

/// The target of the CRUD operation.
#[derive(Debug, Clone, Copy, PartialEq, Eq, PartialOrd, Ord, Hash, Structural)]
pub enum OperationTarget {
    /// The operation will be performed on a table.
    Table,
    /// The operation will be performed on a single entry.
    Entry,
    /// An unknown operation will occur; validation fails while it is set.
    Unknown,
}

impl OperationTarget {
    /// Writes the target as its name, `Table` or `Entry`; an unknown target has no name.
    pub fn to_string(&self) -> (s: String)
        requires
            *self != OperationTarget::Unknown,
        ensures
            *self == OperationTarget::Table ==> s@ == "Table"@,
            *self == OperationTarget::Entry ==> s@ == "Entry"@,
    {
        match self {
            OperationTarget::Table => "Table".to_owned(),
            _ => "Entry".to_owned(),
        }
    }
}

impl Default for OperationTarget {
    /// An unknown target is the default.
    fn default() -> (t: Self)
        ensures
            t == OperationTarget::Unknown,
    {
        OperationTarget::Unknown
    }
}

/// A sealed marker trait for helping an [`Action`] represent what type of target the
/// operation will cover.
pub trait OpTarget: Sealed {
    /// The target that the marker stands for.
    spec fn spec_target() -> OperationTarget;

    /// Returns the target that the marker stands for.
    fn target() -> (t: OperationTarget)
        ensures
            t == Self::spec_target(),
    ;
}

impl OpTarget for TableTarget {
    open spec fn spec_target() -> OperationTarget {
        OperationTarget::Table
    }

    fn target() -> (t: OperationTarget) {
        OperationTarget::Table
    }
}

impl OpTarget for EntryTarget {
    open spec fn spec_target() -> OperationTarget {
        OperationTarget::Entry
    }

    fn target() -> (t: OperationTarget) {
        OperationTarget::Entry
    }
}

/// An error occurred during validation of an [`Action`].
#[derive(Debug, Clone, Copy, PartialEq, Eq, Structural)]
pub enum ActionError {
    /// The [`OperationTarget`] was not set.
    InvalidOperation,
    /// No data was passed when data was expected.
    NoData,
    /// No key was passed when a key was expected.
    NoKey,
    /// Attempted to update a whole table.
    UpdatingTable,
}

impl ActionError {
    /// The error's message.
    pub fn to_string(&self) -> (s: String)
        ensures
            *self == ActionError::InvalidOperation ==> s@ == "an invalid operation was set"@,
            *self == ActionError::NoData ==> s@ == "no data was given when data was expected"@,
            *self == ActionError::NoKey ==> s@ == "no key was given when a key was expected."@,
            *self == ActionError::UpdatingTable ==> s@ == "updating an entire table is unsupported"@,
    {
        match self {
            ActionError::InvalidOperation => "an invalid operation was set".to_owned(),
            ActionError::NoData => "no data was given when data was expected".to_owned(),
            ActionError::NoKey => "no key was given when a key was expected.".to_owned(),
            ActionError::UpdatingTable => "updating an entire table is unsupported".to_owned(),
        }
    }
}

/// What a typed action holds.
pub struct TypedActionView<S> {
    /// The table, if set.
    pub table_name: Option<Seq<char>>,
    /// The data, if set.
    pub data: Option<S>,
    /// The key, if set.
    pub key: Option<Seq<char>>,
    /// Whether the action has been validated since its key last changed.
    pub validated: bool,
}

/// Whether an action of this kind and target needs data.
pub open spec fn spec_needs_data(kind: ActionKind, target: OperationTarget) -> bool {
    kind != ActionKind::Read && kind != ActionKind::Delete && target != OperationTarget::Table
}

/// Whether an action of this target needs a key.
pub open spec fn spec_needs_key(target: OperationTarget) -> bool {
    target != OperationTarget::Table
}

/// The first problem that validation finds, in the order it checks: the target, the data, the
/// key, and a table update.
pub open spec fn validation_problem<S>(
    kind: ActionKind,
    target: OperationTarget,
    a: TypedActionView<S>,
) -> Option<ActionError> {
    if target == OperationTarget::Unknown {
        Some(ActionError::InvalidOperation)
    } else if spec_needs_data(kind, target) && a.data is None {
        Some(ActionError::NoData)
    } else if spec_needs_key(target) && a.key is None {
        Some(ActionError::NoKey)
    } else if kind == ActionKind::Update && target == OperationTarget::Table {
        Some(ActionError::UpdatingTable)
    } else {
        None
    }
}

/// What validation decides for every action, by kind and target: an unknown target is refused;
/// creating or updating an entry needs its data and then its key; reading or deleting an entry
/// needs only its key; a table action needs neither, and only a table update is refused.
pub proof fn lemma_validation_outcomes<S>(kind: ActionKind, target: OperationTarget, a: TypedActionView<S>)
    ensures
        target == OperationTarget::Unknown ==> validation_problem(kind, target, a) == Some(
            ActionError::InvalidOperation,
        ),
        target == OperationTarget::Entry && (kind == ActionKind::Create || kind == ActionKind::Update)
            && a.data is None ==> validation_problem(kind, target, a) == Some(ActionError::NoData),
        target == OperationTarget::Entry && (kind == ActionKind::Create || kind == ActionKind::Update)
            && a.data is Some && a.key is None ==> validation_problem(kind, target, a) == Some(
            ActionError::NoKey,
        ),
        target == OperationTarget::Entry && (kind == ActionKind::Read || kind == ActionKind::Delete)
            && a.key is None ==> validation_problem(kind, target, a) == Some(ActionError::NoKey),
        target == OperationTarget::Entry && a.key is Some && (a.data is Some || kind
            == ActionKind::Read || kind == ActionKind::Delete) ==> validation_problem(kind, target, a)
            is None,
        target == OperationTarget::Table && kind == ActionKind::Update ==> validation_problem(
            kind,
            target,
            a,
        ) == Some(ActionError::UpdatingTable),
        target == OperationTarget::Table && kind != ActionKind::Update ==> validation_problem(
            kind,
            target,
            a,
        ) is None,
{
}

/// The state of a typed action.
#[derive(Debug)]
pub struct InternalAction<S, C, T> {
    kind: PhantomData<C>,
    table_name: Option<String>,
    data: Option<Box<S>>,
    key: Option<String>,
    target: PhantomData<T>,
}

impl<S, C, T> InternalAction<S, C, T> {
    /// The table, if set.
    pub closed spec fn spec_table_name(&self) -> Option<Seq<char>> {
        opt_string_view(self.table_name)
    }

    /// The data, if set.
    pub closed spec fn spec_data(&self) -> Option<S> {
        match self.data {
            Some(d) => Some(*d),
            None => None,
        }
    }

    /// The key, if set.
    pub closed spec fn spec_key(&self) -> Option<Seq<char>> {
        opt_string_view(self.key)
    }

    /// A state with nothing set.
    pub fn new() -> (r: Self)
        ensures
            r.spec_table_name() is None,
            r.spec_data() is None,
            r.spec_key() is None,
    {
        InternalAction {
            kind: PhantomData,
            table_name: None,
            data: None,
            key: None,
            target: PhantomData,
        }
    }

    /// The same state under another target.
    pub fn into_target<New>(self) -> (r: InternalAction<S, C, New>)
        ensures
            r.spec_table_name() == self.spec_table_name(),
            r.spec_data() == self.spec_data(),
            r.spec_key() == self.spec_key(),
    {
        InternalAction {
            kind: PhantomData,
            table_name: self.table_name,
            data: self.data,
            key: self.key,
            target: PhantomData,
        }
    }

    /// The same state under another operation.
    pub fn into_operation<New>(self) -> (r: InternalAction<S, New, T>)
        ensures
            r.spec_table_name() == self.spec_table_name(),
            r.spec_data() == self.spec_data(),
            r.spec_key() == self.spec_key(),
    {
        InternalAction {
            kind: PhantomData,
            table_name: self.table_name,
            data: self.data,
            key: self.key,
            target: PhantomData,
        }
    }

    /// The same table for another entry type; the key and data are cleared.
    pub fn with_entry<S2>(self) -> (r: InternalAction<S2, C, T>)
        ensures
            r.spec_table_name() == self.spec_table_name(),
            r.spec_data() is None,
            r.spec_key() is None,
    {
        InternalAction {
            kind: self.kind,
            table_name: self.table_name,
            data: None,
            key: None,
            target: self.target,
        }
    }

    /// Sets the table name.
    pub fn set_table_name(&mut self, table_name: String) -> (r: &mut Self)
        ensures
            r.spec_table_name() == Some(table_name@),
            r.spec_data() == old(self).spec_data(),
            r.spec_key() == old(self).spec_key(),
            *final(self) == *final(r),
    {
        self.table_name = Some(table_name);
        self
    }

    /// Sets the key.
    pub fn set_key(&mut self, key: String) -> (r: &mut Self)
        ensures
            r.spec_key() == Some(key@),
            r.spec_data() == old(self).spec_data(),
            r.spec_table_name() == old(self).spec_table_name(),
            *final(self) == *final(r),
    {
        self.key = Some(key);
        self
    }

    /// Sets the entry, boxed.
    pub fn set_entry(&mut self, entity: Box<S>) -> (r: &mut Self)
        ensures
            r.spec_data() == Some(*entity),
            r.spec_key() == old(self).spec_key(),
            r.spec_table_name() == old(self).spec_table_name(),
            *final(self) == *final(r),
    {
        self.data = Some(entity);
        self
    }

    /// Sets the data.
    pub fn set_data(&mut self, data: S) -> (r: &mut Self)
        ensures
            r.spec_data() == Some(data),
            r.spec_key() == old(self).spec_key(),
            r.spec_table_name() == old(self).spec_table_name(),
            *final(self) == *final(r),
    {
        self.data = Some(Box::new(data));
        self
    }
}

impl<S, C: CrudOperation, T: OpTarget> InternalAction<S, C, T> {
    /// The kind of operation.
    pub fn kind(&self) -> (r: ActionKind)
        ensures
            r == C::spec_kind(),
    {
        C::kind()
    }

    /// The target of the operation.
    pub fn target(&self) -> (r: OperationTarget)
        ensures
            r == T::spec_target(),
    {
        T::target()
    }
}

impl<S: Clone, C, T> Clone for InternalAction<S, C, T> {
    /// A copy of the state, with the data cloned.
    fn clone(&self) -> (r: Self)
        ensures
            r.spec_table_name() == self.spec_table_name(),
            r.spec_key() == self.spec_key(),
            self.spec_data() is None <==> r.spec_data() is None,
    {
        InternalAction {
            kind: PhantomData,
            table_name: match &self.table_name {
                Some(t) => Some(t.clone()),
                None => None,
            },
            data: match &self.data {
                Some(d) => Some(Box::new((**d).clone())),
                None => None,
            },
            key: match &self.key {
                Some(k) => Some(k.clone()),
                None => None,
            },
            target: PhantomData,
        }
    }
}

impl<S, C, T> Default for InternalAction<S, C, T> {
    /// A state with nothing set.
    fn default() -> (r: Self)
        ensures
            r.spec_table_name() is None,
            r.spec_data() is None,
            r.spec_key() is None,
    {
        Self::new()
    }
}

/// An action for easy CRUD operations, typed by its operation `C` and target `T`.
#[derive(Debug)]
pub struct Action<S, C, T> {
    pub(crate) inner: InternalAction<S, C, T>,
    pub(crate) validated: bool,
}

impl<S, C, T> View for Action<S, C, T> {
    type V = TypedActionView<S>;

    closed spec fn view(&self) -> TypedActionView<S> {
        TypedActionView {
            table_name: self.inner.spec_table_name(),
            data: self.inner.spec_data(),
            key: self.inner.spec_key(),
            validated: self.validated,
        }
    }
}

/// A typed action with nothing set and not validated.
pub open spec fn empty_view<S>() -> TypedActionView<S> {
    TypedActionView { table_name: None, data: None, key: None, validated: false }
}

impl<S, C: CrudOperation, T: OpTarget> Action<S, C, T> {
    /// Creates a new [`Action`] with nothing set.
    pub fn new() -> (r: Self)
        ensures
            r@ == empty_view::<S>(),
    {
        Action { inner: InternalAction::new(), validated: false }
    }

    /// Returns the [`ActionKind`] we will be performing with said action.
    pub fn kind(&self) -> (r: ActionKind)
        ensures
            r == C::spec_kind(),
    {
        C::kind()
    }

    /// Returns the [`OperationTarget`] we will be performing with said action.
    pub fn target(&self) -> (r: OperationTarget)
        ensures
            r == T::spec_target(),
    {
        T::target()
    }

    /// Whether the [`Action`] has been validated.
    pub fn is_validated(&self) -> (r: bool)
        ensures
            r == self@.validated,
    {
        self.validated
    }

    /// Changes the [`CrudOperation`] of this [`Action`].
    pub fn into_operation<O: CrudOperation>(self) -> (r: Action<S, O, T>)
        ensures
            r@ == self@,
    {
        Action { inner: self.inner.into_operation(), validated: self.validated }
    }

    /// Changes the [`OpTarget`] of this [`Action`].
    pub fn into_target<T2: OpTarget>(self) -> (r: Action<S, C, T2>)
        ensures
            r@ == self@,
    {
        Action { inner: self.inner.into_target(), validated: self.validated }
    }

    /// Sets the [`CrudOperation`] of this [`Action`] to [`CreateOperation`].
    pub fn into_create(self) -> (r: Action<S, CreateOperation, T>)
        ensures
            r@ == self@,
    {
        self.into_operation()
    }

    /// Sets the [`CrudOperation`] of this [`Action`] to [`ReadOperation`].
    pub fn into_read(self) -> (r: Action<S, ReadOperation, T>)
        ensures
            r@ == self@,
    {
        self.into_operation()
    }

    /// Sets the [`CrudOperation`] of this [`Action`] to [`UpdateOperation`].
    pub fn into_update(self) -> (r: Action<S, UpdateOperation, T>)
        ensures
            r@ == self@,
    {
        self.into_operation()
    }

    /// Sets the [`CrudOperation`] of this [`Action`] to [`DeleteOperation`].
    pub fn into_delete(self) -> (r: Action<S, DeleteOperation, T>)
        ensures
            r@ == self@,
    {
        self.into_operation()
    }

    /// Sets the [`OpTarget`] of this [`Action`] to [`TableTarget`].
    pub fn into_table(self) -> (r: Action<S, C, TableTarget>)
        ensures
            r@ == self@,
    {
        self.into_target()
    }

    /// Sets the [`OpTarget`] of this [`Action`] to [`EntryTarget`].
    pub fn into_entry(self) -> (r: Action<S, C, EntryTarget>)
        ensures
            r@ == self@,
    {
        self.into_target()
    }

    /// Sets the entry type of this [`Action`]; the key and data are cleared.
    pub fn with_entry<S2>(self) -> (r: Action<S2, C, T>)
        ensures
            r@ == (TypedActionView::<S2> {
                table_name: self@.table_name,
                data: None,
                key: None,
                validated: self@.validated,
            }),
    {
        Action { inner: self.inner.with_entry(), validated: self.validated }
    }

    /// Validates the [`Action`]; a no-op once it has been validated. Otherwise the first
    /// problem found is returned, and without one the action becomes validated.
    pub fn validate(&mut self) -> (r: Result<(), ActionError>)
        ensures
            old(self)@.validated ==> r is Ok && final(self)@ == old(self)@,
            !old(self)@.validated ==> match validation_problem(C::spec_kind(), T::spec_target(), old(self)@) {
                Some(e) => r == Err::<(), ActionError>(e) && final(self)@ == old(self)@,
                None => r is Ok && final(self)@ == (TypedActionView { validated: true, ..old(self)@ }),
            },
    {
        if self.is_validated() {
            return Ok(());
        }
        if self.target() == OperationTarget::Unknown {
            return Err(ActionError::InvalidOperation);
        }
        if self.needs_data() && self.inner.data.is_none() {
            return Err(ActionError::NoData);
        }
        if self.needs_key() && self.inner.key.is_none() {
            return Err(ActionError::NoKey);
        }
        if self.is_updating_table() {
            return Err(ActionError::UpdatingTable);
        }
        self.validated = true;
        Ok(())
    }

    /// Sets the key for the action, as the key's [`Key::to_key`] text; the action must be
    /// validated again.
    pub fn set_key<K: Key + ?Sized>(&mut self, key: &K) -> (r: &mut Self)
        ensures
            r@ == (TypedActionView { key: r@.key, validated: false, ..old(self)@ }),
            r@.key matches Some(t) && is_key_text(key, t),
            *final(self) == *final(r),
    {
        self.set_key_string(key.to_key())
    }

    /// Sets the key text for the action; the action must be validated again.
    pub fn set_key_string(&mut self, key: String) -> (r: &mut Self)
        ensures
            r@ == (TypedActionView { key: Some(key@), validated: false, ..old(self)@ }),
            *final(self) == *final(r),
    {
        self.inner.set_key(key);
        self.validated = false;
        self
    }

    fn is_updating_table(&self) -> (r: bool)
        ensures
            r == (C::spec_kind() == ActionKind::Update && T::spec_target() == OperationTarget::Table),
    {
        self.kind() == ActionKind::Update && self.target() == OperationTarget::Table
    }

    fn needs_data(&self) -> (r: bool)
        ensures
            r == spec_needs_data(C::spec_kind(), T::spec_target()),
    {
        if self.kind() == ActionKind::Read {
            return false;
        }
        if self.kind() == ActionKind::Delete {
            return false;
        }
        if self.target() == OperationTarget::Table {
            return false;
        }
        true
    }

    fn needs_key(&self) -> (r: bool)
        ensures
            r == spec_needs_key(T::spec_target()),
    {
        if self.target() == OperationTarget::Table {
            return false;
        }
        true
    }
}

impl<S: Clone, C: CrudOperation, T: OpTarget> Action<S, C, T> {
    /// Sets the data for the action, as a clone of `entity`.
    pub fn set_data(&mut self, entity: &S) -> (r: &mut Self)
        ensures
            r@.data matches Some(d) && vstd::pervasive::cloned(*entity, d),
            r@.key == old(self)@.key,
            r@.table_name == old(self)@.table_name,
            r@.validated == old(self)@.validated,
            *final(self) == *final(r),
    {
        self.inner.set_entry(Box::new(entity.clone()));
        self
    }
}

impl<S: IndexEntry, C: CrudOperation, T: OpTarget> Action<S, C, T> {
    /// Sets the entry, and its key, that this [`Action`] will act over.
    pub fn set_entry(&mut self, entity: &S) -> (r: &mut Self)
        ensures
            r@.key matches Some(t) && is_entry_key_text(entity, t),
            r@.data matches Some(d) && vstd::pervasive::cloned(*entity, d),
            r@.table_name == old(self)@.table_name,
            !r@.validated,
            *final(self) == *final(r),
    {
        self.set_key_string(entry_key_text(entity));
        self.set_data(entity);
        self
    }
}

impl<S, T: OpTarget> Action<S, CreateOperation, T> {
    /// Begins a [`CreateOperation`] action.
    pub fn create() -> (r: Self)
        ensures
            r@ == empty_view::<S>(),
    {
        Self::new()
    }
}

impl<S, T: OpTarget> Action<S, ReadOperation, T> {
    /// Begins a [`ReadOperation`] action.
    pub fn read() -> (r: Self)
        ensures
            r@ == empty_view::<S>(),
    {
        Self::new()
    }
}

impl<S, T: OpTarget> Action<S, UpdateOperation, T> {
    /// Begins an [`UpdateOperation`] action.
    pub fn update() -> (r: Self)
        ensures
            r@ == empty_view::<S>(),
    {
        Self::new()
    }
}

impl<S, T: OpTarget> Action<S, DeleteOperation, T> {
    /// Begins a [`DeleteOperation`] action.
    pub fn delete() -> (r: Self)
        ensures
            r@ == empty_view::<S>(),
    {
        Self::new()
    }
}

impl<S, C: CrudOperation> Action<S, C, TableTarget> {
    /// Creates a new [`TableTarget`] based operation.
    pub fn table() -> (r: Self)
        ensures
            r@ == empty_view::<S>(),
    {
        Self::new()
    }
}

impl<S, C: CrudOperation> Action<S, C, EntryTarget> {
    /// Creates a new [`EntryTarget`] based operation.
    pub fn entry() -> (r: Self)
        ensures
            r@ == empty_view::<S>(),
    {
        Self::new()
    }
}

impl<S: Clone, C, T> Clone for Action<S, C, T> {
    /// A copy of the action, with the data cloned.
    fn clone(&self) -> (r: Self)
        ensures
            r@.table_name == self@.table_name,
            r@.key == self@.key,
            r@.validated == self@.validated,
            self@.data is None <==> r@.data is None,
    {
        Action { inner: self.inner.clone(), validated: self.validated }
    }
}

impl<S, C, T> Default for Action<S, C, T> {
    /// An action with nothing set and not validated.
    fn default() -> (r: Self)
        ensures
            r@ == empty_view::<S>(),
    {
        Action { inner: InternalAction::default(), validated: false }
    }
}

} // verus!
