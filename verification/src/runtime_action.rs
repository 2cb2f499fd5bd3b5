//! Actions whose target is chosen at run time and checked by validation.
use vstd::prelude::*;

pub use crate::action::ActionKind;

verus! {

/// The error that validating a runtime action gives.
#[derive(Debug, Clone, Copy, PartialEq, Eq, Structural)]
pub enum ActionError {
    /// No target was set.
    InvalidOperation,
}

impl ActionError {
    /// The error's message.
    pub fn to_string(&self) -> (s: String)
        ensures
            s@ == "an invalid operation was set"@,
    {
        "an invalid operation was set".to_owned()
    }
}

/// The target of the CRUD operation.
#[derive(Debug, Clone, Copy, PartialEq, Eq, PartialOrd, Ord, Hash, Structural)]
pub enum OperationTarget {
    /// The operation will be performed on a table.
    Table,
    /// The operation will be performed on a single entity.
    Entity,
    /// No target is set; validation fails while it is.
    Unknown,
}

impl Default for OperationTarget {
    /// No target is the default.
    fn default() -> (t: Self)
        ensures
            t == OperationTarget::Unknown,
    {
        OperationTarget::Unknown
    }
}

/// What a runtime action holds.
pub struct RuntimeActionView<S> {
    /// The kind of operation.
    pub kind: ActionKind,
    /// The table, if set.
    pub table_name: Option<S>,
    /// The data, if set.
    pub data: Option<S>,
    /// The target.
    pub target: OperationTarget,
    /// Whether the action has been validated since its target last changed.
    pub validated: bool,
}

/// An action for easy CRUD operations, whose target is set at run time.
pub struct Action<S> {
    kind: ActionKind,
    table_name: Option<S>,
    data: Option<Box<S>>,
    target: OperationTarget,
    validated: bool,
}

impl<S> View for Action<S> {
    type V = RuntimeActionView<S>;

    closed spec fn view(&self) -> RuntimeActionView<S> {
        RuntimeActionView {
            kind: self.kind,
            table_name: self.table_name,
            data: match self.data {
                Some(d) => Some(*d),
                None => None,
            },
            target: self.target,
            validated: self.validated,
        }
    }
}

impl<S> Action<S> {
    /// Creates a new [`Action`] with the specified operation and nothing else set.
    pub fn new(kind: ActionKind) -> (r: Self)
        ensures
            r@ == (RuntimeActionView::<S> {
                kind,
                table_name: None,
                data: None,
                target: OperationTarget::Unknown,
                validated: false,
            }),
    {
        Action { kind, table_name: None, data: None, target: OperationTarget::Unknown, validated: false }
    }

    /// Returns the [`ActionKind`] we will be performing with said action.
    pub fn kind(&self) -> (r: ActionKind)
        ensures
            r == self@.kind,
    {
        self.kind
    }

    /// Returns the [`OperationTarget`] we will be performing with said action.
    pub fn target(&self) -> (r: OperationTarget)
        ensures
            r == self@.target,
    {
        self.target
    }

    /// Whether the [`Action`] has been validated.
    pub fn is_validated(&self) -> (r: bool)
        ensures
            r == self@.validated,
    {
        self.validated
    }

    /// The table name, if set.
    pub fn table_name(&self) -> (r: Option<&S>)
        ensures
            match r {
                Some(t) => self@.table_name == Some(*t),
                None => self@.table_name is None,
            },
    {
        match &self.table_name {
            Some(t) => Some(t),
            None => None,
        }
    }

    /// The data, if set.
    pub fn data(&self) -> (r: Option<&S>)
        ensures
            match r {
                Some(d) => self@.data == Some(*d),
                None => self@.data is None,
            },
    {
        match &self.data {
            Some(d) => Some(&**d),
            None => None,
        }
    }

    /// Begins a Create-based action.
    pub fn create() -> (r: Self)
        ensures
            r@ == (RuntimeActionView::<S> {
                kind: ActionKind::Create,
                table_name: None,
                data: None,
                target: OperationTarget::Unknown,
                validated: false,
            }),
    {
        Self::new(ActionKind::Create)
    }

    /// Begins a Read-based action.
    pub fn read() -> (r: Self)
        ensures
            r@ == (RuntimeActionView::<S> {
                kind: ActionKind::Read,
                table_name: None,
                data: None,
                target: OperationTarget::Unknown,
                validated: false,
            }),
    {
        Self::new(ActionKind::Read)
    }

    /// Begins an Update-based action.
    pub fn update() -> (r: Self)
        ensures
            r@ == (RuntimeActionView::<S> {
                kind: ActionKind::Update,
                table_name: None,
                data: None,
                target: OperationTarget::Unknown,
                validated: false,
            }),
    {
        Self::new(ActionKind::Update)
    }

    /// Begins a Delete-based action.
    pub fn delete() -> (r: Self)
        ensures
            r@ == (RuntimeActionView::<S> {
                kind: ActionKind::Delete,
                table_name: None,
                data: None,
                target: OperationTarget::Unknown,
                validated: false,
            }),
    {
        Self::new(ActionKind::Delete)
    }

    /// Sets a known target for the action; the action must be validated again.
    pub fn set_target(&mut self, target: OperationTarget) -> (r: &mut Self)
        requires
            target != OperationTarget::Unknown,
        ensures
            r@ == (RuntimeActionView { target, validated: false, ..old(self)@ }),
            *final(self) == *final(r),
    {
        self.target = target;
        self.validated = false;
        self
    }

    /// Validates the action: succeeds at once when already validated, fails while no target is
    /// set, and otherwise marks the action as validated.
    pub fn validate(&mut self) -> (r: Result<(), ActionError>)
        ensures
            old(self)@.validated ==> r is Ok && final(self)@ == old(self)@,
            !old(self)@.validated && old(self)@.target == OperationTarget::Unknown ==> r
                == Err::<(), ActionError>(ActionError::InvalidOperation) && final(self)@ == old(
                self,
            )@,
            !old(self)@.validated && old(self)@.target != OperationTarget::Unknown ==> r is Ok
                && final(self)@ == (RuntimeActionView { validated: true, ..old(self)@ }),
    {
        if self.validated {
            return Ok(());
        }
        if self.target == OperationTarget::Unknown {
            return Err(ActionError::InvalidOperation);
        }
        self.validated = true;
        Ok(())
    }
}

impl<S> Default for Action<S> {
    /// A read with nothing set.
    fn default() -> (r: Self)
        ensures
            r@ == (RuntimeActionView::<S> {
                kind: ActionKind::Read,
                table_name: None,
                data: None,
                target: OperationTarget::Unknown,
                validated: false,
            }),
    {
        Action {
            kind: ActionKind::default(),
            table_name: None,
            data: None,
            target: OperationTarget::default(),
            validated: false,
        }
    }
}

} // verus!
