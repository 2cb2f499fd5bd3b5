//! The choice of the field that an `IndexEntry` derive keys a struct by.
//!
//! The derive looks at the item it is applied to and picks the first field marked `#[key]`;
//! when no field is marked, it picks the first field named `key` or `id`.
use vstd::prelude::*;

use crate::util::str_eq;

verus! {

/// A named field of a struct, as the derive sees it.
#[derive(Debug, Clone)]
pub struct FieldShape {
    /// The field's name.
    pub name: String,
    /// Whether the field carries the `#[key]` attribute.
    pub has_key_attr: bool,
}

/// The shape of the item that the derive is applied to.
#[derive(Debug, Clone)]
pub enum DeriveShape {
    /// An enum or a union.
    NotStruct,
    /// A tuple struct or a unit struct.
    UnnamedFields,
    /// A struct with named fields, in the order they are declared.
    Named(Vec<FieldShape>),
}

/// Why the derive could not choose a key field.
#[derive(Debug, Clone, Copy, PartialEq, Eq, Structural)]
pub enum KeyFieldError {
    /// The item is not a struct.
    NotStruct,
    /// The struct's fields have no names.
    UnnamedFields,
    /// No field is marked `#[key]` or named `key` or `id`.
    NoKeyField,
}

/// Whether a field name is one that the derive keys by when no field is marked: `key` or `id`.
pub open spec fn is_key_name(name: Seq<char>) -> bool {
    name == seq!['k', 'e', 'y'] || name == seq!['i', 'd']
}

/// Whether `field` is chosen by the rule in use: the `#[key]` mark when `by_attr`, the name
/// otherwise.
pub open spec fn field_matches(field: FieldShape, by_attr: bool) -> bool {
    if by_attr {
        field.has_key_attr
    } else {
        is_key_name(field.name@)
    }
}

/// The index of the first field that the rule chooses, if any.
pub open spec fn first_match(fields: Seq<FieldShape>, by_attr: bool) -> Option<int>
    decreases fields.len(),
{
    if fields.len() == 0 {
        None
    } else if field_matches(fields[0], by_attr) {
        Some(0)
    } else {
        match first_match(fields.drop_first(), by_attr) {
            Some(i) => Some(i + 1),
            None => None,
        }
    }
}

/// The index of the key field of a struct with these fields: the first marked `#[key]`, else
/// the first named `key` or `id`.
pub open spec fn spec_key_field(fields: Seq<FieldShape>) -> Option<int> {
    match first_match(fields, true) {
        Some(i) => Some(i),
        None => first_match(fields, false),
    }
}

/// When no field before `i` matches, the first match is `i` if that field matches, and there
/// is none if `i` is the end.
proof fn lemma_first_match(fields: Seq<FieldShape>, by_attr: bool, i: int)
    requires
        0 <= i <= fields.len(),
        forall|j: int| 0 <= j < i ==> !field_matches(#[trigger] fields[j], by_attr),
    ensures
        i < fields.len() && field_matches(fields[i], by_attr) ==> first_match(fields, by_attr)
            == Some(i),
        i == fields.len() ==> first_match(fields, by_attr) is None,
    decreases i,
{
    if i > 0 {
        let rest = fields.drop_first();
        assert forall|j: int| 0 <= j < i - 1 implies !field_matches(#[trigger] rest[j], by_attr) by {
            assert(rest[j] == fields[j + 1]);
        }
        assert(!field_matches(fields[0], by_attr));
        lemma_first_match(rest, by_attr, i - 1);
        if i < fields.len() {
            assert(rest[i - 1] == fields[i]);
        }
    }
}

/// Returns the index of the first field that the rule chooses.
fn first_matching(fields: &Vec<FieldShape>, by_attr: bool) -> (r: Option<usize>)
    ensures
        match r {
            Some(i) => i < fields@.len() && first_match(fields@, by_attr) == Some(i as int),
            None => first_match(fields@, by_attr) is None,
        },
{
    let mut i: usize = 0;
    while i < fields.len()
        invariant
            i <= fields@.len(),
            forall|j: int| 0 <= j < i ==> !field_matches(#[trigger] fields@[j], by_attr),
        decreases fields@.len() - i,
    {
        let field = &fields[i];
        let chosen = if by_attr {
            field.has_key_attr
        } else {
            let name = field.name.as_str();
            proof {
                reveal_strlit("key");
                reveal_strlit("id");
                assert("key"@ =~= seq!['k', 'e', 'y']);
                assert("id"@ =~= seq!['i', 'd']);
            }
            str_eq(name, "key") || str_eq(name, "id")
        };
        if chosen {
            proof {
                lemma_first_match(fields@, by_attr, i as int);
            }
            return Some(i);
        }
        i = i + 1;
    }
    proof {
        lemma_first_match(fields@, by_attr, i as int);
    }
    None
}

/// Chooses the field that an `IndexEntry` derive keys the struct by: the first field marked
/// `#[key]`, else the first field named `key` or `id`. An item that is not a struct, a struct
/// without named fields, and a struct with no such field are refused.
pub fn key_field(shape: &DeriveShape) -> (r: Result<usize, KeyFieldError>)
    ensures
        match shape {
            DeriveShape::NotStruct => r == Err::<usize, KeyFieldError>(KeyFieldError::NotStruct),
            DeriveShape::UnnamedFields => r == Err::<usize, KeyFieldError>(
                KeyFieldError::UnnamedFields,
            ),
            DeriveShape::Named(fields) => match spec_key_field(fields@) {
                Some(i) => r == Ok::<usize, KeyFieldError>(i as usize) && i < fields@.len(),
                None => r == Err::<usize, KeyFieldError>(KeyFieldError::NoKeyField),
            },
        },
{
    match shape {
        DeriveShape::NotStruct => Err(KeyFieldError::NotStruct),
        DeriveShape::UnnamedFields => Err(KeyFieldError::UnnamedFields),
        DeriveShape::Named(fields) => {
            match first_matching(fields, true) {
                Some(i) => Ok(i),
                None => match first_matching(fields, false) {
                    Some(i) => Ok(i),
                    None => Err(KeyFieldError::NoKeyField),
                },
            }
        },
    }
}

} // verus!
