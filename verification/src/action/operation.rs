use vstd::prelude::*;

use super::{ActionKind, TargetKind};

verus! {

/// Marker type for a Create operation.
#[derive(Debug, Clone, Copy, PartialEq, Eq, PartialOrd, Ord, Hash, Structural)]
#[non_exhaustive]
pub struct CreateOperation;

/// Marker type for a Read operation.
#[derive(Debug, Clone, Copy, PartialEq, Eq, PartialOrd, Ord, Hash, Structural)]
#[non_exhaustive]
pub struct ReadOperation;

/// Marker type for an Update operation.
#[derive(Debug, Clone, Copy, PartialEq, Eq, PartialOrd, Ord, Hash, Structural)]
#[non_exhaustive]
pub struct UpdateOperation;

/// Marker type for a Delete operation.
#[derive(Debug, Clone, Copy, PartialEq, Eq, PartialOrd, Ord, Hash, Structural)]
#[non_exhaustive]
pub struct DeleteOperation;

/// Marker type for a table operation.
#[derive(Debug, Clone, Copy, PartialEq, Eq, PartialOrd, Ord, Hash, Structural)]
#[non_exhaustive]
pub struct TableTarget;

/// Marker type for an entry operation.
#[derive(Debug, Clone, Copy, PartialEq, Eq, PartialOrd, Ord, Hash, Structural)]
#[non_exhaustive]
pub struct EntryTarget;

/// Seals the marker traits: only the markers of this module implement them.
pub trait Sealed {

}

impl Sealed for CreateOperation {

}

impl Sealed for ReadOperation {

}

impl Sealed for UpdateOperation {

}

impl Sealed for DeleteOperation {

}

impl Sealed for TableTarget {

}

impl Sealed for EntryTarget {

}

/// A sealed marker trait for helping an `Action` represent what type of operation will occur.
pub trait CrudOperation: Sealed {
    /// The kind of operation that the marker stands for.
    spec fn spec_kind() -> ActionKind;

    /// Returns the kind of operation that the marker stands for.
    fn kind() -> (k: ActionKind)
        ensures
            k == Self::spec_kind(),
    ;
}

impl CrudOperation for CreateOperation {
    open spec fn spec_kind() -> ActionKind {
        ActionKind::Create
    }

    fn kind() -> (k: ActionKind) {
        ActionKind::Create
    }
}

impl CrudOperation for ReadOperation {
    open spec fn spec_kind() -> ActionKind {
        ActionKind::Read
    }

    fn kind() -> (k: ActionKind) {
        ActionKind::Read
    }
}

impl CrudOperation for UpdateOperation {
    open spec fn spec_kind() -> ActionKind {
        ActionKind::Update
    }

    fn kind() -> (k: ActionKind) {
        ActionKind::Update
    }
}

impl CrudOperation for DeleteOperation {
    open spec fn spec_kind() -> ActionKind {
        ActionKind::Delete
    }

    fn kind() -> (k: ActionKind) {
        ActionKind::Delete
    }
}

/// A sealed marker trait for helping an `Action` represent what type of target the
/// operation will cover.
pub trait OperationTarget: Sealed {
    /// The target that the marker stands for.
    spec fn spec_target() -> TargetKind;

    /// Returns the target that the marker stands for.
    fn target() -> (t: TargetKind)
        ensures
            t == Self::spec_target(),
    ;
}

impl OperationTarget for TableTarget {
    open spec fn spec_target() -> TargetKind {
        TargetKind::Table
    }

    fn target() -> (t: TargetKind) {
        TargetKind::Table
    }
}

impl OperationTarget for EntryTarget {
    open spec fn spec_target() -> TargetKind {
        TargetKind::Entry
    }

    fn target() -> (t: TargetKind) {
        TargetKind::Entry
    }
}

} // verus!
