use vstd::prelude::*;

verus! {

/// The result of running an action.
#[derive(Debug, Clone, PartialEq, Eq, PartialOrd, Ord, Hash)]
pub enum ActionResult<R> {
    /// A create finished.
    Create,
    /// A single entry was read, if it exists.
    ReadSingle(Option<R>),
    /// A whole table was read.
    ReadMultiple(Vec<R>),
    /// An update finished.
    Update,
    /// A delete finished; whether something was deleted.
    Delete(bool),
}

impl<R> ActionResult<R> {
    /// Asserts that the result is from a create.
    pub fn create(self)
        requires
            self is Create,
    {
    }

    /// The entry that a single read returned.
    pub fn read_single(self) -> (r: Option<R>)
        requires
            self is ReadSingle,
        ensures
            self matches ActionResult::ReadSingle(v) && r == v,
    {
        match self {
            ActionResult::ReadSingle(v) => v,
            _ => {
                assert(false);
                None
            },
        }
    }

    /// The entries that a table read returned.
    pub fn read_multiple(self) -> (r: Vec<R>)
        requires
            self is ReadMultiple,
        ensures
            self matches ActionResult::ReadMultiple(v) && r == v,
    {
        match self {
            ActionResult::ReadMultiple(v) => v,
            _ => {
                assert(false);
                Vec::new()
            },
        }
    }

    /// Asserts that the result is from an update.
    pub fn update(self)
        requires
            self is Update,
    {
    }

    /// Whether a delete removed something.
    pub fn delete(self) -> (r: bool)
        requires
            self is Delete,
        ensures
            self matches ActionResult::Delete(b) && r == b,
    {
        match self {
            ActionResult::Delete(b) => b,
            _ => {
                assert(false);
                false
            },
        }
    }

    /// The name of the kind of action that the result came from.
    pub fn to_string(&self) -> (s: String)
        ensures
            self is Create ==> s@ == "Create"@,
            (self is ReadSingle || self is ReadMultiple) ==> s@ == "Read"@,
            self is Update ==> s@ == "Update"@,
            self is Delete ==> s@ == "Delete"@,
    {
        match self {
            ActionResult::Create => "Create".to_owned(),
            ActionResult::ReadSingle(_) | ActionResult::ReadMultiple(_) => "Read".to_owned(),
            ActionResult::Update => "Update".to_owned(),
            ActionResult::Delete(_) => "Delete".to_owned(),
        }
    }
}

} // verus!
