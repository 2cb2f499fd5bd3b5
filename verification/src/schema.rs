//! What kind of schema a serialized value describes.
//!
//! A schema is read from an entry's default value once it is serialized: a boolean field
//! holds booleans, a list of one element holds what that element is, a map is a nested
//! schema whose field names are its keys, and so on. This module makes that choice on the
//! shape of the serialized value; the bounds and defaults of each kind are filled in by the
//! caller.
use vstd::prelude::*;

use crate::util::str_eq;

verus! {

/// The shape of a serialized value, as the schema reads it.
#[derive(Debug)]
pub enum ValueShape {
    /// A boolean.
    Bool,
    /// A `u8`.
    U8,
    /// A `u16`.
    U16,
    /// A `u32`.
    U32,
    /// A `u64`.
    U64,
    /// An `i8`.
    I8,
    /// An `i16`.
    I16,
    /// An `i32`.
    I32,
    /// An `i64`.
    I64,
    /// An `f32`.
    F32,
    /// An `f64`.
    F64,
    /// A character.
    Char,
    /// A string.
    String,
    /// The unit value.
    Unit,
    /// A byte string.
    Bytes,
    /// An optional value, and what it holds when it holds something.
    Option(Option<Box<ValueShape>>),
    /// A newtype around a value.
    Newtype(Box<ValueShape>),
    /// A sequence of values.
    Sequence(Vec<ValueShape>),
    /// A map, its entries in order.
    Mapping(Vec<MapEntryShape>),
}

/// An entry of a serialized map.
#[derive(Debug)]
pub struct MapEntryShape {
    /// The key read as a string, or `None` when it cannot be read as one.
    pub key: Option<String>,
    /// The value under the key.
    pub value: ValueShape,
}

/// What one field of a schema holds, without its bounds and defaults.
#[derive(Debug)]
pub enum SchemaKind {
    /// A boolean.
    Bool,
    /// A `u8`.
    U8,
    /// A `u16`.
    U16,
    /// A `u32`.
    U32,
    /// A `u64`.
    U64,
    /// An `i8`.
    I8,
    /// An `i16`.
    I16,
    /// An `i32`.
    I32,
    /// An `i64`.
    I64,
    /// An `f32`.
    F32,
    /// An `f64`.
    F64,
    /// A character.
    Char,
    /// A string.
    String,
    /// A list of values of one kind.
    Vec(Box<SchemaKind>),
    /// An optional value of one kind.
    Option(Box<SchemaKind>),
    /// A nested schema, its fields in the order they were added.
    Subfolder(Vec<SchemaField>),
    /// Anything.
    Any,
}

/// A named field of a nested schema.
#[derive(Debug)]
pub struct SchemaField {
    /// The field's name.
    pub name: String,
    /// What the field holds.
    pub kind: SchemaKind,
}

/// Why a value describes no schema.
#[derive(Debug, Clone)]
pub enum SchemaKindError {
    /// The unit value or a byte string, which no schema describes.
    UnsupportedValue,
    /// A map key that cannot be read as a string.
    UnsupportedKeyType,
    /// A map with two keys of the same name.
    AlreadyExists(String),
}

/// The mathematical model of a [`SchemaKind`]: nested schemas as sequences of named fields.
pub enum KindModel {
    /// A boolean.
    Bool,
    /// A `u8`.
    U8,
    /// A `u16`.
    U16,
    /// A `u32`.
    U32,
    /// A `u64`.
    U64,
    /// An `i8`.
    I8,
    /// An `i16`.
    I16,
    /// An `i32`.
    I32,
    /// An `i64`.
    I64,
    /// An `f32`.
    F32,
    /// An `f64`.
    F64,
    /// A character.
    Char,
    /// A string.
    String,
    /// A list of values of one kind.
    Vec(Box<KindModel>),
    /// An optional value of one kind.
    Option(Box<KindModel>),
    /// A nested schema.
    Subfolder(Seq<(Seq<char>, KindModel)>),
    /// Anything.
    Any,
}

/// The mathematical model of a [`SchemaKindError`].
pub enum KindErrorModel {
    /// The unit value or a byte string.
    UnsupportedValue,
    /// A map key that is not a string.
    UnsupportedKeyType,
    /// A repeated field name.
    AlreadyExists(Seq<char>),
}

/// Whether a field named `name` is among `fields`.
pub open spec fn has_field(fields: Seq<(Seq<char>, KindModel)>, name: Seq<char>) -> bool {
    exists|j: int| 0 <= j < fields.len() && #[trigger] fields[j].0 == name
}

/// The kind that a value of this shape describes, or why it describes none.
pub open spec fn spec_kind(v: ValueShape) -> Result<KindModel, KindErrorModel>
    decreases v, 0nat,
{
    match v {
        ValueShape::Bool => Ok(KindModel::Bool),
        ValueShape::U8 => Ok(KindModel::U8),
        ValueShape::U16 => Ok(KindModel::U16),
        ValueShape::U32 => Ok(KindModel::U32),
        ValueShape::U64 => Ok(KindModel::U64),
        ValueShape::I8 => Ok(KindModel::I8),
        ValueShape::I16 => Ok(KindModel::I16),
        ValueShape::I32 => Ok(KindModel::I32),
        ValueShape::I64 => Ok(KindModel::I64),
        ValueShape::F32 => Ok(KindModel::F32),
        ValueShape::F64 => Ok(KindModel::F64),
        ValueShape::Char => Ok(KindModel::Char),
        ValueShape::String => Ok(KindModel::String),
        ValueShape::Unit => Err(KindErrorModel::UnsupportedValue),
        ValueShape::Bytes => Err(KindErrorModel::UnsupportedValue),
        ValueShape::Option(inner) => match inner {
            None => Ok(KindModel::Option(Box::new(KindModel::Any))),
            Some(b) => match spec_kind(*b) {
                Ok(k) => Ok(KindModel::Option(Box::new(k))),
                Err(e) => Err(e),
            },
        },
        ValueShape::Newtype(b) => spec_kind(*b),
        ValueShape::Sequence(items) => if items@.len() == 1 {
            match spec_kind(items@[0]) {
                Ok(k) => Ok(KindModel::Vec(Box::new(k))),
                Err(e) => Err(e),
            }
        } else {
            Ok(KindModel::Vec(Box::new(KindModel::Any)))
        },
        ValueShape::Mapping(entries) => match spec_fields(entries@, entries@.len()) {
            Ok(fields) => Ok(KindModel::Subfolder(fields)),
            Err(e) => Err(e),
        },
    }
}

/// The fields of the nested schema that the first `n` entries of a map describe, added in
/// order: the first entry whose key is not a string, whose value describes no schema, or
/// whose key repeats an earlier one, stops it.
pub open spec fn spec_fields(entries: Seq<MapEntryShape>, n: nat) -> Result<
    Seq<(Seq<char>, KindModel)>,
    KindErrorModel,
>
    decreases entries, n,
{
    if n == 0 || n > entries.len() {
        Ok(Seq::empty())
    } else {
        match spec_fields(entries, (n - 1) as nat) {
            Err(e) => Err(e),
            Ok(prev) => match entries[n - 1].key {
                None => Err(KindErrorModel::UnsupportedKeyType),
                Some(k) => match spec_kind(entries[n - 1].value) {
                    Err(e) => Err(e),
                    Ok(kind) => if has_field(prev, k@) {
                        Err(KindErrorModel::AlreadyExists(k@))
                    } else {
                        Ok(prev.push((k@, kind)))
                    },
                },
            },
        }
    }
}

/// The model of a kind.
pub open spec fn kind_model(k: SchemaKind) -> KindModel
    decreases k, 0nat,
{
    match k {
        SchemaKind::Bool => KindModel::Bool,
        SchemaKind::U8 => KindModel::U8,
        SchemaKind::U16 => KindModel::U16,
        SchemaKind::U32 => KindModel::U32,
        SchemaKind::U64 => KindModel::U64,
        SchemaKind::I8 => KindModel::I8,
        SchemaKind::I16 => KindModel::I16,
        SchemaKind::I32 => KindModel::I32,
        SchemaKind::I64 => KindModel::I64,
        SchemaKind::F32 => KindModel::F32,
        SchemaKind::F64 => KindModel::F64,
        SchemaKind::Char => KindModel::Char,
        SchemaKind::String => KindModel::String,
        SchemaKind::Vec(b) => KindModel::Vec(Box::new(kind_model(*b))),
        SchemaKind::Option(b) => KindModel::Option(Box::new(kind_model(*b))),
        SchemaKind::Subfolder(fields) => KindModel::Subfolder(fields_model(fields@, fields@.len())),
        SchemaKind::Any => KindModel::Any,
    }
}

/// The model of the first `n` fields of a nested schema.
pub open spec fn fields_model(fields: Seq<SchemaField>, n: nat) -> Seq<(Seq<char>, KindModel)>
    decreases fields, n,
{
    if n == 0 || n > fields.len() {
        Seq::empty()
    } else {
        fields_model(fields, (n - 1) as nat).push(
            (fields[n - 1].name@, kind_model(fields[n - 1].kind)),
        )
    }
}

/// The model of an error.
pub open spec fn error_model(e: SchemaKindError) -> KindErrorModel {
    match e {
        SchemaKindError::UnsupportedValue => KindErrorModel::UnsupportedValue,
        SchemaKindError::UnsupportedKeyType => KindErrorModel::UnsupportedKeyType,
        SchemaKindError::AlreadyExists(name) => KindErrorModel::AlreadyExists(name@),
    }
}

/// The model of a result.
pub open spec fn result_model(r: Result<SchemaKind, SchemaKindError>) -> Result<
    KindModel,
    KindErrorModel,
> {
    match r {
        Ok(k) => Ok(kind_model(k)),
        Err(e) => Err(error_model(e)),
    }
}

/// Each scalar shape describes the kind of the same scalar type, for every width and sign; the
/// unit value and byte strings describe none; a newtype describes what it wraps; an option
/// describes an option of what it holds, of anything when it holds nothing; a list of one
/// element describes a list of that element's kind, and any other list a list of anything.
pub proof fn lemma_schema_kinds(inner: ValueShape, items: Vec<ValueShape>)
    ensures
        spec_kind(ValueShape::Bool) == Ok::<KindModel, KindErrorModel>(KindModel::Bool),
        spec_kind(ValueShape::U8) == Ok::<KindModel, KindErrorModel>(KindModel::U8),
        spec_kind(ValueShape::U16) == Ok::<KindModel, KindErrorModel>(KindModel::U16),
        spec_kind(ValueShape::U32) == Ok::<KindModel, KindErrorModel>(KindModel::U32),
        spec_kind(ValueShape::U64) == Ok::<KindModel, KindErrorModel>(KindModel::U64),
        spec_kind(ValueShape::I8) == Ok::<KindModel, KindErrorModel>(KindModel::I8),
        spec_kind(ValueShape::I16) == Ok::<KindModel, KindErrorModel>(KindModel::I16),
        spec_kind(ValueShape::I32) == Ok::<KindModel, KindErrorModel>(KindModel::I32),
        spec_kind(ValueShape::I64) == Ok::<KindModel, KindErrorModel>(KindModel::I64),
        spec_kind(ValueShape::F32) == Ok::<KindModel, KindErrorModel>(KindModel::F32),
        spec_kind(ValueShape::F64) == Ok::<KindModel, KindErrorModel>(KindModel::F64),
        spec_kind(ValueShape::Char) == Ok::<KindModel, KindErrorModel>(KindModel::Char),
        spec_kind(ValueShape::String) == Ok::<KindModel, KindErrorModel>(KindModel::String),
        spec_kind(ValueShape::Unit) == Err::<KindModel, KindErrorModel>(
            KindErrorModel::UnsupportedValue,
        ),
        spec_kind(ValueShape::Bytes) == Err::<KindModel, KindErrorModel>(
            KindErrorModel::UnsupportedValue,
        ),
        spec_kind(ValueShape::Newtype(Box::new(inner))) == spec_kind(inner),
        spec_kind(ValueShape::Option(None)) == Ok::<KindModel, KindErrorModel>(
            KindModel::Option(Box::new(KindModel::Any)),
        ),
        spec_kind(inner) matches Ok(k) ==> spec_kind(ValueShape::Option(Some(Box::new(inner))))
            == Ok::<KindModel, KindErrorModel>(KindModel::Option(Box::new(k))),
        spec_kind(inner) matches Err(e) ==> spec_kind(ValueShape::Option(Some(Box::new(inner))))
            == Err::<KindModel, KindErrorModel>(e),
        items@.len() == 1 ==> match spec_kind(items@[0]) {
            Ok(k) => spec_kind(ValueShape::Sequence(items)) == Ok::<KindModel, KindErrorModel>(
                KindModel::Vec(Box::new(k)),
            ),
            Err(e) => spec_kind(ValueShape::Sequence(items)) == Err::<KindModel, KindErrorModel>(e),
        },
        items@.len() != 1 ==> spec_kind(ValueShape::Sequence(items)) == Ok::<
            KindModel,
            KindErrorModel,
        >(KindModel::Vec(Box::new(KindModel::Any))),
{
}

/// Once the fields of a prefix of a map's entries are refused, so are those of every longer
/// prefix, for the same reason.
proof fn lemma_fields_error_sticks(entries: Seq<MapEntryShape>, k: nat, m: nat)
    requires
        k <= m <= entries.len(),
        spec_fields(entries, k) is Err,
    ensures
        spec_fields(entries, m) == spec_fields(entries, k),
    decreases m,
{
    if m > k {
        lemma_fields_error_sticks(entries, k, (m - 1) as nat);
    }
}

/// The model of the first `n` fields lists those fields in order.
proof fn lemma_fields_model_shape(fields: Seq<SchemaField>, n: nat)
    requires
        n <= fields.len(),
    ensures
        fields_model(fields, n).len() == n,
        forall|j: int|
            0 <= j < n ==> #[trigger] fields_model(fields, n)[j] == (
                fields[j].name@,
                kind_model(fields[j].kind),
            ),
    decreases n,
{
    if n > 0 {
        lemma_fields_model_shape(fields, (n - 1) as nat);
    }
}

/// Adding a field at the end leaves the model of the fields before it as it was.
proof fn lemma_fields_model_push(fields: Seq<SchemaField>, field: SchemaField, n: nat)
    requires
        n <= fields.len(),
    ensures
        fields_model(fields.push(field), n) == fields_model(fields, n),
    decreases n,
{
    if n > 0 {
        lemma_fields_model_push(fields, field, (n - 1) as nat);
        assert(fields.push(field)[n - 1] == fields[n - 1]);
    }
}

/// Whether a field named `name` is among `fields`.
fn has_field_named(fields: &Vec<SchemaField>, name: &str) -> (r: bool)
    ensures
        r == has_field(fields_model(fields@, fields@.len()), name@),
{
    proof {
        lemma_fields_model_shape(fields@, fields@.len());
    }
    let ghost model = fields_model(fields@, fields@.len());
    let mut j: usize = 0;
    while j < fields.len()
        invariant
            j <= fields@.len(),
            model == fields_model(fields@, fields@.len()),
            model.len() == fields@.len(),
            forall|i: int| 0 <= i < fields@.len() ==> #[trigger] model[i] == (
                fields@[i].name@,
                kind_model(fields@[i].kind),
            ),
            forall|i: int| 0 <= i < j ==> (#[trigger] model[i]).0 != name@,
        decreases fields@.len() - j,
    {
        if str_eq(fields[j].name.as_str(), name) {
            assert(model[j as int].0 == name@);
            return true;
        }
        j = j + 1;
    }
    false
}

/// The kind that a value of this shape describes: the kind of its one element for a list of
/// one element, a list of anything for any other list, a nested schema for a map, what it
/// wraps for a newtype. The unit value and byte strings are refused.
pub fn schema_kind(v: &ValueShape) -> (r: Result<SchemaKind, SchemaKindError>)
    ensures
        result_model(r) == spec_kind(*v),
    decreases *v, 0nat,
{
    assert(kind_model(SchemaKind::Any) == KindModel::Any);
    match v {
        ValueShape::Bool => Ok(SchemaKind::Bool),
        ValueShape::U8 => Ok(SchemaKind::U8),
        ValueShape::U16 => Ok(SchemaKind::U16),
        ValueShape::U32 => Ok(SchemaKind::U32),
        ValueShape::U64 => Ok(SchemaKind::U64),
        ValueShape::I8 => Ok(SchemaKind::I8),
        ValueShape::I16 => Ok(SchemaKind::I16),
        ValueShape::I32 => Ok(SchemaKind::I32),
        ValueShape::I64 => Ok(SchemaKind::I64),
        ValueShape::F32 => Ok(SchemaKind::F32),
        ValueShape::F64 => Ok(SchemaKind::F64),
        ValueShape::Char => Ok(SchemaKind::Char),
        ValueShape::String => Ok(SchemaKind::String),
        ValueShape::Unit => Err(SchemaKindError::UnsupportedValue),
        ValueShape::Bytes => Err(SchemaKindError::UnsupportedValue),
        ValueShape::Option(inner) => match inner {
            None => Ok(SchemaKind::Option(Box::new(SchemaKind::Any))),
            Some(b) => match schema_kind(&**b) {
                Ok(k) => Ok(SchemaKind::Option(Box::new(k))),
                Err(e) => Err(e),
            },
        },
        ValueShape::Newtype(b) => schema_kind(&**b),
        ValueShape::Sequence(items) => {
            if items.len() == 1 {
                match schema_kind(&items[0]) {
                    Ok(k) => Ok(SchemaKind::Vec(Box::new(k))),
                    Err(e) => Err(e),
                }
            } else {
                Ok(SchemaKind::Vec(Box::new(SchemaKind::Any)))
            }
        },
        ValueShape::Mapping(entries) => match schema_fields(entries) {
            Ok(fields) => Ok(SchemaKind::Subfolder(fields)),
            Err(e) => Err(e),
        },
    }
}

/// The fields of the nested schema that a map's entries describe, in order.
fn schema_fields(entries: &Vec<MapEntryShape>) -> (r: Result<Vec<SchemaField>, SchemaKindError>)
    ensures
        match r {
            Ok(fields) => spec_fields(entries@, entries@.len()) == Ok::<
                Seq<(Seq<char>, KindModel)>,
                KindErrorModel,
            >(fields_model(fields@, fields@.len())),
            Err(e) => spec_fields(entries@, entries@.len()) == Err::<
                Seq<(Seq<char>, KindModel)>,
                KindErrorModel,
            >(error_model(e)),
        },
    decreases *entries, 1nat,
{
    let mut fields: Vec<SchemaField> = Vec::new();
    let mut i: usize = 0;
    while i < entries.len()
        invariant
            i <= entries@.len(),
            spec_fields(entries@, i as nat) == Ok::<Seq<(Seq<char>, KindModel)>, KindErrorModel>(
                fields_model(fields@, fields@.len()),
            ),
        decreases entries@.len() - i,
    {
        let entry = &entries[i];
        let key = match &entry.key {
            None => {
                proof {
                    lemma_fields_error_sticks(entries@, (i + 1) as nat, entries@.len());
                }
                return Err(SchemaKindError::UnsupportedKeyType);
            },
            Some(k) => k,
        };
        proof {
            assert(decreases_to!(*entries => entries@[i as int]));
        }
        let kind = match schema_kind(&entry.value) {
            Ok(k) => k,
            Err(e) => {
                proof {
                    lemma_fields_error_sticks(entries@, (i + 1) as nat, entries@.len());
                }
                return Err(e);
            },
        };
        if has_field_named(&fields, key.as_str()) {
            proof {
                lemma_fields_error_sticks(entries@, (i + 1) as nat, entries@.len());
            }
            return Err(SchemaKindError::AlreadyExists(key.clone()));
        }
        let ghost before = fields@;
        let field = SchemaField { name: key.clone(), kind };
        fields.push(field);
        proof {
            lemma_fields_model_push(before, field, before.len());
            assert(fields@ == before.push(field));
        }
        i = i + 1;
    }
    Ok(fields)
}

} // verus!
