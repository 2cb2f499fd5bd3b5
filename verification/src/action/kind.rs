use vstd::prelude::*;

use super::error::{ActionValidationError, ActionValidationErrorType};
use crate::util::str_eq;

verus! {

/// The type of CRUD action to perform.
#[derive(Debug, Clone, Copy, PartialEq, Eq, Structural)]
pub enum ActionKind {
    /// Signifies that the operation will be a Create.
    ///
    /// This locks the database and allows no other reads or writes until it is complete.
    Create,
    /// Signifies that the operation will be a Read.
    ///
    /// This allows multiple different readers, but doesn't allow writing until all Reads are complete.
    Read,
    /// Signifies that the operation will be an Update.
    ///
    /// This locks the database and allows no other reads or writes until it is complete.
    Update,
    /// Signifies that the operation will be a Delete.
    ///
    /// This locks the database and allows no other reads or writes until it is complete.
    Delete,
}

impl ActionKind {
    /// The name under which the kind is written and parsed.
    pub open spec fn spec_name(self) -> Seq<char> {
        match self {
            ActionKind::Create => seq!['C', 'r', 'e', 'a', 't', 'e'],
            ActionKind::Read => seq!['R', 'e', 'a', 'd'],
            ActionKind::Update => seq!['U', 'p', 'd', 'a', 't', 'e'],
            ActionKind::Delete => seq!['D', 'e', 'l', 'e', 't', 'e'],
        }
    }

    /// The kind whose name is `s`, if any.
    pub open spec fn spec_from_name(s: Seq<char>) -> Option<ActionKind> {
        if s == ActionKind::Create.spec_name() {
            Some(ActionKind::Create)
        } else if s == ActionKind::Read.spec_name() {
            Some(ActionKind::Read)
        } else if s == ActionKind::Update.spec_name() {
            Some(ActionKind::Update)
        } else if s == ActionKind::Delete.spec_name() {
            Some(ActionKind::Delete)
        } else {
            None
        }
    }

    /// Writes the kind as its name: `Create`, `Read`, `Update` or `Delete`.
    pub fn to_string(&self) -> (s: String)
        ensures
            s@ == self.spec_name(),
    {
        match self {
            ActionKind::Create => {
                let lit = "Create";
                proof {
                    reveal_strlit("Create");
                }
                assert(lit@ =~= self.spec_name());
                lit.to_owned()
            },
            ActionKind::Read => {
                let lit = "Read";
                proof {
                    reveal_strlit("Read");
                }
                assert(lit@ =~= self.spec_name());
                lit.to_owned()
            },
            ActionKind::Update => {
                let lit = "Update";
                proof {
                    reveal_strlit("Update");
                }
                assert(lit@ =~= self.spec_name());
                lit.to_owned()
            },
            ActionKind::Delete => {
                let lit = "Delete";
                proof {
                    reveal_strlit("Delete");
                }
                assert(lit@ =~= self.spec_name());
                lit.to_owned()
            },
        }
    }

    /// Parses a kind from its exact name; any other text is a parse error.
    pub fn from_name(s: &str) -> (r: Result<ActionKind, ActionValidationError>)
        ensures
            match ActionKind::spec_from_name(s@) {
                Some(k) => r == Ok::<ActionKind, ActionValidationError>(k),
                None => r matches Err(e) && e.is_plain(ActionValidationErrorType::Parse),
            },
    {
        proof {
            reveal_strlit("Create");
            reveal_strlit("Read");
            reveal_strlit("Update");
            reveal_strlit("Delete");
        }
        assert("Create"@ =~= ActionKind::Create.spec_name());
        assert("Read"@ =~= ActionKind::Read.spec_name());
        assert("Update"@ =~= ActionKind::Update.spec_name());
        assert("Delete"@ =~= ActionKind::Delete.spec_name());
        if str_eq(s, "Create") {
            Ok(ActionKind::Create)
        } else if str_eq(s, "Read") {
            Ok(ActionKind::Read)
        } else if str_eq(s, "Update") {
            Ok(ActionKind::Update)
        } else if str_eq(s, "Delete") {
            Ok(ActionKind::Delete)
        } else {
            Err(ActionValidationError::new(ActionValidationErrorType::Parse))
        }
    }
}

impl Default for ActionKind {
    /// Reads are the default kind.
    fn default() -> (k: Self)
        ensures
            k == ActionKind::Read,
    {
        ActionKind::Read
    }
}

/// Parsing a kind's own name gives the kind back.
pub proof fn lemma_kind_name_round_trip(k: ActionKind)
    ensures
        ActionKind::spec_from_name(k.spec_name()) == Some(k),
{
    assert(ActionKind::Create.spec_name() != ActionKind::Read.spec_name());
    assert(ActionKind::Create.spec_name() != ActionKind::Update.spec_name());
    assert(ActionKind::Create.spec_name() != ActionKind::Delete.spec_name());
    assert(ActionKind::Read.spec_name() != ActionKind::Update.spec_name());
    assert(ActionKind::Read.spec_name() != ActionKind::Delete.spec_name());
    assert(ActionKind::Update.spec_name() != ActionKind::Delete.spec_name());
}

impl std::str::FromStr for ActionKind {
    type Err = ActionValidationError;

    fn from_str(s: &str) -> (r: Result<Self, Self::Err>)
        ensures
            match ActionKind::spec_from_name(s@) {
                Some(k) => r == Ok::<ActionKind, ActionValidationError>(k),
                None => r matches Err(e) && e.is_plain(ActionValidationErrorType::Parse),
            },
    {
        Self::from_name(s)
    }
}

} // verus!
