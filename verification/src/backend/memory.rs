//! A memory based backend. Useful for debugging or applications who only need to store data
//! at runtime.
use vstd::prelude::*;

use dashmap::DashMap;
use serde_value::Value;

use crate::error::ErrorSource;

verus! {

/// An error returned from the memory backend.
#[derive(Debug)]
pub struct MemoryError {
    source: Option<ErrorSource>,
    kind: MemoryErrorType,
}

/// The type of [`MemoryError`] that occurred.
#[derive(Debug, Clone, Copy, PartialEq, Eq, Structural)]
pub enum MemoryErrorType {
    /// A serialization error occurred.
    Serialization,
    /// A deserialization error occurred.
    Deserialization,
}

impl MemoryError {
    /// The type of error.
    pub closed spec fn spec_kind(&self) -> MemoryErrorType {
        self.kind
    }

    /// The source error, if any.
    pub closed spec fn spec_source(&self) -> Option<ErrorSource> {
        self.source
    }

    /// Immutable reference to the type of error that occurred.
    pub fn kind(&self) -> (r: &MemoryErrorType)
        ensures
            *r == self.spec_kind(),
    {
        &self.kind
    }

    /// Consume the error, returning the source error if there is any.
    pub fn into_source(self) -> (r: Option<ErrorSource>)
        ensures
            r == self.spec_source(),
    {
        self.source
    }

    /// Consume the error, returning the owned error type and the source error.
    pub fn into_parts(self) -> (r: (MemoryErrorType, Option<ErrorSource>))
        ensures
            r == (self.spec_kind(), self.spec_source()),
    {
        (self.kind, self.source)
    }

    /// The error's message.
    pub fn to_string(&self) -> (s: String)
        ensures
            self.spec_kind() == MemoryErrorType::Serialization ==> s@ == "a serialization error occurred"@,
            self.spec_kind() == MemoryErrorType::Deserialization ==> s@
                == "a deserialization error occurred"@,
    {
        match self.kind {
            MemoryErrorType::Serialization => "a serialization error occurred".to_owned(),
            MemoryErrorType::Deserialization => "a deserialization error occurred".to_owned(),
        }
    }
}

impl From<serde_value::SerializerError> for MemoryError {
    /// A failure to turn a value into a stored value is a serialization error, with the
    /// failure's message as its source.
    fn from(err: serde_value::SerializerError) -> (r: Self)
        ensures
            r.spec_kind() == MemoryErrorType::Serialization,
            r.spec_source() matches Some(ErrorSource::External(_)),
    {
        MemoryError {
            source: Some(ErrorSource::External(err.to_string())),
            kind: MemoryErrorType::Serialization,
        }
    }
}

impl vstd::std_specs::convert::FromSpecImpl<serde_value::SerializerError> for MemoryError {
    open spec fn obeys_from_spec() -> bool {
        false
    }

    closed spec fn from_spec(err: serde_value::SerializerError) -> Self {
        MemoryError { source: None, kind: MemoryErrorType::Serialization }
    }
}

impl From<serde_value::DeserializerError> for MemoryError {
    /// A failure to read a stored value back is a deserialization error, with the failure's
    /// message as its source.
    fn from(err: serde_value::DeserializerError) -> (r: Self)
        ensures
            r.spec_kind() == MemoryErrorType::Deserialization,
            r.spec_source() matches Some(ErrorSource::External(_)),
    {
        MemoryError {
            source: Some(ErrorSource::External(err.to_string())),
            kind: MemoryErrorType::Deserialization,
        }
    }
}

impl vstd::std_specs::convert::FromSpecImpl<serde_value::DeserializerError> for MemoryError {
    open spec fn obeys_from_spec() -> bool {
        false
    }

    closed spec fn from_spec(err: serde_value::DeserializerError) -> Self {
        MemoryError { source: None, kind: MemoryErrorType::Deserialization }
    }
}

#[verifier::external_type_specification]
#[verifier::external_body]
#[verifier::reject_recursive_types(K)]
#[verifier::reject_recursive_types(V)]
#[verifier::reject_recursive_types(S)]
pub struct ExDashMap<K, V, S>(dashmap::DashMap<K, V, S>);

#[verifier::external_type_specification]
#[verifier::external_body]
pub struct ExValue(serde_value::Value);

/// `Value`'s `Clone`, which `derive` writes, copies the value: the clone equals the value cloned.
pub assume_specification[ <serde_value::Value as Clone>::clone ](v: &serde_value::Value) -> (r:
    serde_value::Value)
    ensures
        r == *v,
;

/// The entries of one table: what each key (by its characters) maps to.
///
/// The table and the store below are two instantiations of `DashMap`; each has its own name
/// for its contents, so each `DashMap` method that the backends call has one wrapper per
/// instantiation.
pub uninterp spec fn table_entries(t: DashMap<String, Value>) -> Map<Seq<char>, Value>;

/// The tables of a store: for each table's name, the [`table_entries`] of the table stored
/// under it.
pub uninterp spec fn stored_tables(t: DashMap<String, DashMap<String, Value>>) -> Map<
    Seq<char>,
    Map<Seq<char>, Value>,
>;

/// The entries of a table with none.
pub open spec fn empty_table() -> Map<Seq<char>, Value> {
    Map::empty()
}

/// A store with no tables.
pub open spec fn empty_store() -> Map<Seq<char>, Map<Seq<char>, Value>> {
    Map::empty()
}

/// A table with no entries, made with `DashMap::new`.
#[verifier::external_body]
pub(crate) fn new_table() -> (r: DashMap<String, Value>)
    ensures
        table_entries(r) == empty_table(),
{
    DashMap::new()
}

/// A store with no tables, made with `DashMap::new`.
#[verifier::external_body]
pub(crate) fn new_store() -> (r: DashMap<String, DashMap<String, Value>>)
    ensures
        stored_tables(r) == empty_store(),
{
    DashMap::new()
}

/// `DashMap::insert` on a table: the key now maps to the value, the other keys are unchanged.
#[verifier::external_body]
pub(crate) fn table_insert(t: &mut DashMap<String, Value>, key: String, value: Value)
    ensures
        table_entries(*final(t)) == table_entries(*old(t)).insert(key@, value),
{
    t.insert(key, value);
}

/// `DashMap::remove` on a table: the key no longer maps to anything, the other keys are
/// unchanged.
#[verifier::external_body]
pub(crate) fn table_remove(t: &mut DashMap<String, Value>, key: &str)
    ensures
        table_entries(*final(t)) == table_entries(*old(t)).remove(key@),
{
    t.remove(key);
}

/// `DashMap::contains_key` on a table.
#[verifier::external_body]
pub(crate) fn table_contains(t: &DashMap<String, Value>, key: &str) -> (r: bool)
    ensures
        r == table_entries(*t).contains_key(key@),
{
    t.contains_key(key)
}

/// `DashMap::get` on a table, the value cloned out of the guard; `Value`'s derived `Clone`
/// gives an equal value.
#[verifier::external_body]
pub(crate) fn table_get(t: &DashMap<String, Value>, key: &str) -> (r: Option<Value>)
    ensures
        r == (if table_entries(*t).contains_key(key@) {
            Some(table_entries(*t)[key@])
        } else {
            None
        }),
{
    t.get(key).map(|v| v.value().clone())
}

/// The entries of a table, in the order `DashMap`'s owning iterator yields them: each key
/// once, with its value. The order is not stated; it depends on the hasher.
#[verifier::external_body]
pub(crate) fn table_into_entries(t: DashMap<String, Value>) -> (r: Vec<(String, Value)>)
    ensures
        r@.len() == table_entries(t).len(),
        forall|i: int, j: int| 0 <= i < j < r@.len() ==> r@[i].0@ != r@[j].0@,
        forall|i: int| 0 <= i < r@.len() ==> #[trigger] table_entries(t).contains_key(r@[i].0@)
            && table_entries(t)[r@[i].0@] == r@[i].1,
        forall|k: Seq<char>| #[trigger] table_entries(t).contains_key(k) ==> exists|i: int|
            0 <= i < r@.len() && r@[i].0@ == k,
{
    t.into_iter().collect()
}

/// `DashMap::insert` on the store: the name now maps to the table, the other names are
/// unchanged.
#[verifier::external_body]
pub(crate) fn store_insert(s: &mut DashMap<String, DashMap<String, Value>>, name: String, t: DashMap<String, Value>)
    ensures
        stored_tables(*final(s)) == stored_tables(*old(s)).insert(name@, table_entries(t)),
{
    s.insert(name, t);
}

/// `DashMap::remove` on the store, handing out the removed table.
#[verifier::external_body]
pub(crate) fn store_remove(s: &mut DashMap<String, DashMap<String, Value>>, name: &str) -> (r: Option<
    DashMap<String, Value>,
>)
    ensures
        stored_tables(*final(s)) == stored_tables(*old(s)).remove(name@),
        r is Some <==> stored_tables(*old(s)).contains_key(name@),
        r matches Some(t) ==> table_entries(t) == stored_tables(*old(s))[name@],
{
    s.remove(name).map(|(_, t)| t)
}

/// `DashMap::contains_key` on the store.
#[verifier::external_body]
pub(crate) fn store_contains(s: &DashMap<String, DashMap<String, Value>>, name: &str) -> (r: bool)
    ensures
        r == stored_tables(*s).contains_key(name@),
{
    s.contains_key(name)
}

/// `DashMap::get` on the store, the table cloned out of the guard; `DashMap`'s `Clone` clones
/// every entry.
#[verifier::external_body]
pub(crate) fn store_get(s: &DashMap<String, DashMap<String, Value>>, name: &str) -> (r: Option<
    DashMap<String, Value>,
>)
    ensures
        r is Some <==> stored_tables(*s).contains_key(name@),
        r matches Some(t) ==> table_entries(t) == stored_tables(*s)[name@],
{
    s.get(name).map(|t| t.value().clone())
}

/// The value stored under `id` in `table`, if the table and the entry exist.
pub open spec fn stored_value(
    tables: Map<Seq<char>, Map<Seq<char>, Value>>,
    table: Seq<char>,
    id: Seq<char>,
) -> Option<Value> {
    if tables.contains_key(table) && tables[table].contains_key(id) {
        Some(tables[table][id])
    } else {
        None
    }
}

/// The tables after storing `value` under `id` in `table`; unchanged when there is no such
/// table.
pub open spec fn after_create(
    tables: Map<Seq<char>, Map<Seq<char>, Value>>,
    table: Seq<char>,
    id: Seq<char>,
    value: Value,
) -> Map<Seq<char>, Map<Seq<char>, Value>> {
    if tables.contains_key(table) {
        tables.insert(table, tables[table].insert(id, value))
    } else {
        tables
    }
}

/// The tables after removing the entry under `id` from `table`; unchanged when there is no
/// such table.
pub open spec fn after_delete(
    tables: Map<Seq<char>, Map<Seq<char>, Value>>,
    table: Seq<char>,
    id: Seq<char>,
) -> Map<Seq<char>, Map<Seq<char>, Value>> {
    if tables.contains_key(table) {
        tables.insert(table, tables[table].remove(id))
    } else {
        tables
    }
}

/// Whether `found` lists, each once, the keys of `entries` that occur in `wanted`.
pub open spec fn selected_from(
    found: Seq<Seq<char>>,
    entries: Map<Seq<char>, Value>,
    wanted: Seq<Seq<char>>,
) -> bool {
    &&& forall|a: int, b: int| 0 <= a < b < found.len() ==> found[a] != found[b]
    &&& forall|k: Seq<char>| #[trigger]
        found.contains(k) <==> (entries.contains_key(k) && wanted.contains(k))
}

/// The text of each of `keys`.
pub open spec fn str_views(keys: Seq<&str>) -> Seq<Seq<char>> {
    keys.map_values(|k: &str| k@)
}

/// Whether one of `keys` equals `key`.
pub(crate) fn contains_key_str(keys: &[&str], key: &str) -> (r: bool)
    ensures
        r == exists|j: int| 0 <= j < keys@.len() && keys@[j]@ == key@,
{
    let mut j: usize = 0;
    while j < keys.len()
        invariant
            j <= keys@.len(),
            forall|x: int| 0 <= x < j ==> keys@[x]@ != key@,
        decreases keys@.len() - j,
    {
        if crate::util::str_eq(keys[j], key) {
            return true;
        }
        j += 1;
    }
    false
}

/// `DashMap::clone` on the store: every table is cloned with its entries.
#[verifier::external_body]
pub(crate) fn store_clone(s: &DashMap<String, DashMap<String, Value>>) -> (r: DashMap<
    String,
    DashMap<String, Value>,
>)
    ensures
        stored_tables(r) == stored_tables(*s),
{
    s.clone()
}

/// The keys of a table, each once, in the order the table yields them.
pub(crate) fn table_keys(t: DashMap<String, Value>) -> (r: Vec<String>)
    ensures
        forall|i: int, j: int| 0 <= i < j < r@.len() ==> r@[i]@ != r@[j]@,
        r@.len() == table_entries(t).len(),
        forall|k: Seq<char>| table_entries(t).contains_key(k) <==> exists|i: int|
            0 <= i < r@.len() && r@[i]@ == k,
{
    let mut keys: Vec<String> = Vec::new();
    let ghost m = table_entries(t);
    let entries = table_into_entries(t);
    let n = entries.len();
    let mut i: usize = 0;
    while i < n
        invariant
            n == entries@.len(),
            i <= n,
            keys@.len() == i,
            forall|j: int| 0 <= j < i ==> #[trigger] keys@[j]@ == entries@[j].0@,
        decreases n - i,
    {
        keys.push(entries[i].0.clone());
        i += 1;
    }
    proof {
        assert forall|k: Seq<char>| m.contains_key(k) implies exists|j: int|
            0 <= j < keys@.len() && keys@[j]@ == k by {
            let j = choose|j: int| 0 <= j < entries@.len() && entries@[j].0@ == k;
            assert(keys@[j]@ == k);
        }
        assert forall|k: Seq<char>| (exists|j: int| 0 <= j < keys@.len() && keys@[j]@
            == k) implies m.contains_key(k) by {
            let j = choose|j: int| 0 <= j < keys@.len() && keys@[j]@ == k;
            assert(m.contains_key(entries@[j].0@));
        }
        assert forall|a: int, b: int| 0 <= a < b < keys@.len() implies keys@[a]@
            != keys@[b]@ by {
            assert(keys@[a]@ == entries@[a].0@);
            assert(keys@[b]@ == entries@[b].0@);
        }
    }
    keys
}

/// `DashMap::len` on the store: the number of tables.
#[verifier::external_body]
pub(crate) fn store_len(s: &DashMap<String, DashMap<String, Value>>) -> (r: usize)
    ensures
        r == stored_tables(*s).len(),
{
    s.len()
}

/// A memory-based backend, keeping each table as a [`DashMap`] of [`Value`]s.
///
/// Its state is the map from each table's name to the table's entries.
#[derive(Debug)]
pub struct MemoryBackend {
    tables: DashMap<String, DashMap<String, Value>>,
}

impl View for MemoryBackend {
    type V = Map<Seq<char>, Map<Seq<char>, Value>>;

    closed spec fn view(&self) -> Self::V {
        stored_tables(self.tables)
    }
}

impl MemoryBackend {
    /// Creates a new [`MemoryBackend`], with no tables.
    pub fn new() -> (r: Self)
        ensures
            r@ == empty_store(),
    {
        MemoryBackend { tables: new_store() }
    }

    /// The number of tables.
    pub fn len(&self) -> (r: usize)
        ensures
            r == self@.len(),
    {
        store_len(&self.tables)
    }

    /// Whether the table exists.
    pub fn has_table(&self, table: &str) -> (r: bool)
        ensures
            r == self@.contains_key(table@),
    {
        store_contains(&self.tables, table)
    }

    /// Creates the table, empty; an existing table of that name is replaced by an empty one.
    pub fn create_table(&mut self, table: &str)
        ensures
            final(self)@ == old(self)@.insert(table@, empty_table()),
    {
        let t = new_table();
        store_insert(&mut self.tables, table.to_owned(), t);
    }

    /// Deletes the table, if it exists.
    pub fn delete_table(&mut self, table: &str)
        ensures
            final(self)@ == old(self)@.remove(table@),
    {
        store_remove(&mut self.tables, table);
    }

    /// The keys of the table's entries, each once, in no stated order; none if the table does
    /// not exist.
    pub fn get_keys(&self, table: &str) -> (r: Vec<String>)
        ensures
            forall|i: int, j: int| 0 <= i < j < r@.len() ==> r@[i]@ != r@[j]@,
            self@.contains_key(table@) ==> r@.len() == self@[table@].len() && (forall|k: Seq<
                char,
            >| self@[table@].contains_key(k) <==> exists|i: int| 0 <= i < r@.len() && r@[i]@ == k),
            !self@.contains_key(table@) ==> r@.len() == 0,
    {
        match store_get(&self.tables, table) {
            None => Vec::new(),
            Some(t) => table_keys(t),
        }
    }

    /// The values of the table's entries whose keys are among `keys`, in no stated order: each
    /// such entry once. None if the table does not exist.
    pub fn get_all(&self, table: &str, keys: &[&str]) -> (r: Vec<Value>)
        ensures
            !self@.contains_key(table@) ==> r@.len() == 0,
            self@.contains_key(table@) ==> exists|found: Seq<Seq<char>>| #[trigger]
                selected_from(found, self@[table@], str_views(keys@))
                && r@ == found.map_values(|k: Seq<char>| self@[table@][k]),
    {
        let mut values: Vec<Value> = Vec::new();
        let ghost wanted = str_views(keys@);
        match store_get(&self.tables, table) {
            None => values,
            Some(t) => {
                let ghost m = table_entries(t);
                let entries = table_into_entries(t);
                let n = entries.len();
                let mut i: usize = 0;
                let ghost mut found: Seq<Seq<char>> = Seq::empty();
                while i < n
                    invariant
                        n == entries@.len(),
                        i <= n,
                        wanted == str_views(keys@),
                        forall|a: int, b: int| 0 <= a < b < entries@.len() ==> entries@[a].0@
                            != entries@[b].0@,
                        forall|a: int| 0 <= a < entries@.len() ==> #[trigger] m.contains_key(
                            entries@[a].0@,
                        ) && m[entries@[a].0@] == entries@[a].1,
                        values@ == found.map_values(|k: Seq<char>| m[k]),
                        forall|a: int, b: int| 0 <= a < b < found.len() ==> found[a] != found[b],
                        forall|k: Seq<char>| #[trigger] found.contains(k) <==> (wanted.contains(k)
                            && exists|a: int| 0 <= a < i && entries@[a].0@ == k),
                    decreases n - i,
                {
                    let key = &entries[i].0;
                    let hit = contains_key_str(keys, key.as_str());
                    proof {
                        assert(wanted.contains(key@) == hit) by {
                            if hit {
                                let j = choose|j: int| 0 <= j < keys@.len() && keys@[j]@ == key@;
                                assert(wanted[j] == key@);
                            }
                            if wanted.contains(key@) {
                                let j = choose|j: int| 0 <= j < wanted.len() && wanted[j] == key@;
                                assert(keys@[j]@ == key@);
                            }
                        }
                    }
                    if hit {
                        let ghost old_found = found;
                        let ghost old_values = values@;
                        values.push(entries[i].1.clone());
                        proof {
                            found = found.push(key@);
                            assert(!old_found.contains(key@));
                            assert forall|k: Seq<char>| #[trigger] found.contains(k) <==> (
                            wanted.contains(k) && exists|a: int| 0 <= a < i + 1 && entries@[a].0@
                                == k) by {
                                if found.contains(k) && k != key@ {
                                    let x = choose|x: int| 0 <= x < found.len() && found[x] == k;
                                    assert(old_found[x] == k);
                                }
                                if k != key@ && (exists|a: int| 0 <= a < i + 1 && entries@[a].0@
                                    == k) {
                                    let a = choose|a: int| 0 <= a < i + 1 && entries@[a].0@ == k;
                                    assert(a != i);
                                }
                                if k == key@ {
                                    assert(found[found.len() - 1] == k);
                                }
                                if k != key@ && old_found.contains(k) {
                                    let x = choose|x: int| 0 <= x < old_found.len() && old_found[x] == k;
                                    assert(found[x] == k);
                                }
                            }
                            assert(m.contains_key(entries@[i as int].0@));
                            assert(m[key@] == entries@[i as int].1);
                            assert(old_values =~= old_found.map_values(|k: Seq<char>| m[k]));
                            assert forall|x: int| 0 <= x < found.len() implies values@[x] == m[found[x]] by {
                                if x < old_found.len() {
                                    assert(old_values[x] == m[old_found[x]]);
                                }
                            }
                            assert(values@ =~= found.map_values(|k: Seq<char>| m[k]));
                        }
                    } else {
                        proof {
                            assert forall|k: Seq<char>| #[trigger] found.contains(k) <==> (
                            wanted.contains(k) && exists|a: int| 0 <= a < i + 1 && entries@[a].0@
                                == k) by {
                                if k != key@ && (exists|a: int| 0 <= a < i + 1 && entries@[a].0@
                                    == k) {
                                    let a = choose|a: int| 0 <= a < i + 1 && entries@[a].0@ == k;
                                    assert(a != i);
                                }
                            }
                        }
                    }
                    i += 1;
                }
                proof {
                    assert forall|k: Seq<char>| #[trigger] found.contains(k) <==> (m.contains_key(
                        k,
                    ) && wanted.contains(k)) by {
                        if m.contains_key(k) {
                            let a = choose|a: int| 0 <= a < entries@.len() && entries@[a].0@ == k;
                        }
                    }
                    assert(selected_from(found, m, wanted));
                }
                values
            },
        }
    }

    /// The value stored under the key, if the table and the entry exist.
    pub fn get(&self, table: &str, id: &str) -> (r: Option<Value>)
        ensures
            r == stored_value(self@, table@, id@),
    {
        match store_get(&self.tables, table) {
            None => None,
            Some(t) => table_get(&t, id),
        }
    }

    /// Whether the table exists and holds an entry under the key.
    pub fn has(&self, table: &str, id: &str) -> (r: bool)
        ensures
            r == stored_value(self@, table@, id@) is Some,
    {
        match store_get(&self.tables, table) {
            None => false,
            Some(t) => table_contains(&t, id),
        }
    }

    /// Stores the value under the key, replacing what was there; nothing happens when the
    /// table does not exist.
    pub fn create(&mut self, table: &str, id: &str, value: Value)
        ensures
            final(self)@ == after_create(old(self)@, table@, id@, value),
    {
        match store_remove(&mut self.tables, table) {
            None => {
                assert(stored_tables(self.tables) =~= old(self)@);
            },
            Some(mut t) => {
                table_insert(&mut t, id.to_owned(), value);
                store_insert(&mut self.tables, table.to_owned(), t);
                assert(stored_tables(self.tables) =~= after_create(old(self)@, table@, id@, value));
            },
        }
    }

    /// Replaces the value under the key; the same as [`create`](Self::create).
    pub fn update(&mut self, table: &str, id: &str, value: Value)
        ensures
            final(self)@ == after_create(old(self)@, table@, id@, value),
    {
        self.create(table, id, value)
    }

    /// Replaces the value under the key; the same as [`create`](Self::create).
    pub fn replace(&mut self, table: &str, id: &str, value: Value)
        ensures
            final(self)@ == after_create(old(self)@, table@, id@, value),
    {
        self.create(table, id, value)
    }

    /// Creates the table unless it exists.
    pub fn ensure_table(&mut self, table: &str)
        ensures
            old(self)@.contains_key(table@) ==> final(self)@ == old(self)@,
            !old(self)@.contains_key(table@) ==> final(self)@ == old(self)@.insert(
                table@,
                empty_table(),
            ),
    {
        if !self.has_table(table) {
            self.create_table(table);
        }
    }

    /// Stores the value under the key unless an entry is already there.
    pub fn ensure(&mut self, table: &str, id: &str, value: Value)
        ensures
            stored_value(old(self)@, table@, id@) is Some ==> final(self)@ == old(self)@,
            stored_value(old(self)@, table@, id@) is None ==> final(self)@ == after_create(
                old(self)@,
                table@,
                id@,
                value,
            ),
    {
        if !self.has(table, id) {
            self.create(table, id, value);
        }
    }

    /// Deletes the entry under the key, if the table exists.
    pub fn delete(&mut self, table: &str, id: &str)
        ensures
            final(self)@ == after_delete(old(self)@, table@, id@),
    {
        match store_remove(&mut self.tables, table) {
            None => {
                assert(stored_tables(self.tables) =~= old(self)@);
            },
            Some(mut t) => {
                table_remove(&mut t, id);
                store_insert(&mut self.tables, table.to_owned(), t);
                assert(stored_tables(self.tables) =~= after_delete(old(self)@, table@, id@));
            },
        }
    }
}

impl Clone for MemoryBackend {
    /// A backend holding copies of the same tables.
    fn clone(&self) -> (r: Self)
        ensures
            r@ == self@,
    {
        MemoryBackend { tables: store_clone(&self.tables) }
    }
}

impl Default for MemoryBackend {
    fn default() -> (r: Self)
        ensures
            r@ == empty_store(),
    {
        MemoryBackend::new()
    }
}

/// A read gives back what the last write to the same entry stored, when its table exists.
pub proof fn lemma_get_after_create(
    tables: Map<Seq<char>, Map<Seq<char>, Value>>,
    table: Seq<char>,
    id: Seq<char>,
    value: Value,
)
    requires
        tables.contains_key(table),
    ensures
        stored_value(after_create(tables, table, id, value), table, id) == Some(value),
{
}

/// A write touches no other entry: every other table and key reads as before.
pub proof fn lemma_create_keeps_others(
    tables: Map<Seq<char>, Map<Seq<char>, Value>>,
    table: Seq<char>,
    id: Seq<char>,
    value: Value,
    other_table: Seq<char>,
    other_id: Seq<char>,
)
    requires
        other_table != table || other_id != id,
    ensures
        stored_value(after_create(tables, table, id, value), other_table, other_id)
            == stored_value(tables, other_table, other_id),
{
}

/// Writing to a table that does not exist stores nothing.
pub proof fn lemma_create_without_table(
    tables: Map<Seq<char>, Map<Seq<char>, Value>>,
    table: Seq<char>,
    id: Seq<char>,
    value: Value,
)
    requires
        !tables.contains_key(table),
    ensures
        after_create(tables, table, id, value) == tables,
        stored_value(after_create(tables, table, id, value), table, id) is None,
{
}

/// After a delete the entry reads as absent, and every other entry reads as before.
pub proof fn lemma_delete_removes(
    tables: Map<Seq<char>, Map<Seq<char>, Value>>,
    table: Seq<char>,
    id: Seq<char>,
    other_table: Seq<char>,
    other_id: Seq<char>,
)
    ensures
        stored_value(after_delete(tables, table, id), table, id) is None,
        (other_table != table || other_id != id) ==> stored_value(
            after_delete(tables, table, id),
            other_table,
            other_id,
        ) == stored_value(tables, other_table, other_id),
{
}

/// Deleting what was just written restores the table as it was before, when the key was
/// absent.
pub proof fn lemma_delete_undoes_create(
    tables: Map<Seq<char>, Map<Seq<char>, Value>>,
    table: Seq<char>,
    id: Seq<char>,
    value: Value,
)
    requires
        stored_value(tables, table, id) is None,
    ensures
        after_delete(after_create(tables, table, id, value), table, id) == tables,
{
    if tables.contains_key(table) {
        assert(tables[table].insert(id, value).remove(id) =~= tables[table]);
        assert(tables.insert(table, tables[table]) =~= tables);
    }
}

/// A created table exists and is empty; a deleted table no longer exists.
pub proof fn lemma_table_lifecycle(tables: Map<Seq<char>, Map<Seq<char>, Value>>, table: Seq<char>, id: Seq<char>)
    ensures
        tables.insert(table, empty_table()).contains_key(table),
        stored_value(tables.insert(table, empty_table()), table, id) is None,
        !tables.remove(table).contains_key(table),
        stored_value(tables.remove(table), table, id) is None,
{
}

} // verus!
