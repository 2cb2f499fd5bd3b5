use vstd::prelude::*;

use super::error::{ActionValidationError, ActionValidationErrorType};
use crate::util::str_eq;

verus! {

/// The target of the CRUD operation.
#[derive(Debug, Clone, Copy, PartialEq, Eq, PartialOrd, Ord, Hash, Structural)]
pub enum TargetKind {
    /// The operation will be performed on a table.
    Table,
    /// The operation will be performed on a single entry.
    Entry,
}

impl TargetKind {
    /// The name under which the target is written and parsed.
    pub open spec fn spec_name(self) -> Seq<char> {
        match self {
            TargetKind::Table => seq!['T', 'a', 'b', 'l', 'e'],
            TargetKind::Entry => seq!['E', 'n', 't', 'r', 'y'],
        }
    }

    /// The target whose name is `s`, if any.
    pub open spec fn spec_from_name(s: Seq<char>) -> Option<TargetKind> {
        if s == TargetKind::Table.spec_name() {
            Some(TargetKind::Table)
        } else if s == TargetKind::Entry.spec_name() {
            Some(TargetKind::Entry)
        } else {
            None
        }
    }

    /// Writes the target as its name: `Table` or `Entry`.
    pub fn to_string(&self) -> (s: String)
        ensures
            s@ == self.spec_name(),
    {
        match self {
            TargetKind::Table => {
                let lit = "Table";
                proof {
                    reveal_strlit("Table");
                }
                assert(lit@ =~= self.spec_name());
                lit.to_owned()
            },
            TargetKind::Entry => {
                let lit = "Entry";
                proof {
                    reveal_strlit("Entry");
                }
                assert(lit@ =~= self.spec_name());
                lit.to_owned()
            },
        }
    }

    /// Parses a target from its exact name; any other text is a parse error.
    pub fn from_name(s: &str) -> (r: Result<TargetKind, ActionValidationError>)
        ensures
            match TargetKind::spec_from_name(s@) {
                Some(t) => r == Ok::<TargetKind, ActionValidationError>(t),
                None => r matches Err(e) && e.is_plain(ActionValidationErrorType::Parse),
            },
    {
        proof {
            reveal_strlit("Table");
            reveal_strlit("Entry");
        }
        assert("Table"@ =~= TargetKind::Table.spec_name());
        assert("Entry"@ =~= TargetKind::Entry.spec_name());
        if str_eq(s, "Table") {
            Ok(TargetKind::Table)
        } else if str_eq(s, "Entry") {
            Ok(TargetKind::Entry)
        } else {
            Err(ActionValidationError::new(ActionValidationErrorType::Parse))
        }
    }
}

impl Default for TargetKind {
    /// Entries are the default target.
    fn default() -> (t: Self)
        ensures
            t == TargetKind::Entry,
    {
        TargetKind::Entry
    }
}

impl std::str::FromStr for TargetKind {
    type Err = ActionValidationError;

    fn from_str(s: &str) -> (r: Result<Self, Self::Err>)
        ensures
            match TargetKind::spec_from_name(s@) {
                Some(t) => r == Ok::<TargetKind, ActionValidationError>(t),
                None => r matches Err(e) && e.is_plain(ActionValidationErrorType::Parse),
            },
    {
        Self::from_name(s)
    }
}

/// Parsing a target's own name gives the target back.
pub proof fn lemma_target_name_round_trip(t: TargetKind)
    ensures
        TargetKind::spec_from_name(t.spec_name()) == Some(t),
{
    assert(TargetKind::Table.spec_name()[0] != TargetKind::Entry.spec_name()[0]);
}

} // verus!
