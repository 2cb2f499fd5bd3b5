//! A memory-based backend that reports missing tables and duplicate entries as errors.
use vstd::prelude::*;

use dashmap::DashMap;
use serde_value::Value;

use super::memory::{
    after_create, after_delete, empty_store, empty_table, new_store, new_table, store_clone,
    store_contains, store_get, store_insert, store_len, store_remove, stored_tables, stored_value,
    table_contains, table_entries, table_get, table_insert, table_keys, table_remove,
};

verus! {

/// An error returned from the [`CacheBackend`].
#[derive(Debug)]
pub enum CacheError {
    /// A serialization error occurred.
    Serialization(serde_value::SerializerError),
    /// A deserialization error occurred.
    DeserializationError(serde_value::DeserializerError),
    /// The specified table doesn't exist.
    TableDoesntExist(String),
    /// The value already exists.
    ValueAlreadyExists,
}

impl CacheError {
    /// The error's message.
    pub fn to_string(&self) -> (s: String)
        ensures
            self is Serialization ==> s@ == "a serialization error occurred"@,
            self is DeserializationError ==> s@ == "a deserialization error occurred"@,
            self matches CacheError::TableDoesntExist(t) ==> s@ == "the table "@ + t@
                + " does not exist"@,
            self is ValueAlreadyExists ==> s@ == "value already exists"@,
    {
        match self {
            CacheError::Serialization(_) => "a serialization error occurred".to_owned(),
            CacheError::DeserializationError(_) => "a deserialization error occurred".to_owned(),
            CacheError::TableDoesntExist(t) => {
                let mut s = "the table ".to_owned();
                s.append(t.as_str());
                s.append(" does not exist");
                s
            },
            CacheError::ValueAlreadyExists => "value already exists".to_owned(),
        }
    }
}

impl From<serde_value::SerializerError> for CacheError {
    fn from(e: serde_value::SerializerError) -> (r: Self)
        ensures
            r == CacheError::Serialization(e),
    {
        CacheError::Serialization(e)
    }
}

impl vstd::std_specs::convert::FromSpecImpl<serde_value::SerializerError> for CacheError {
    open spec fn obeys_from_spec() -> bool {
        true
    }

    open spec fn from_spec(e: serde_value::SerializerError) -> Self {
        CacheError::Serialization(e)
    }
}

impl From<serde_value::DeserializerError> for CacheError {
    fn from(e: serde_value::DeserializerError) -> (r: Self)
        ensures
            r == CacheError::DeserializationError(e),
    {
        CacheError::DeserializationError(e)
    }
}

impl vstd::std_specs::convert::FromSpecImpl<serde_value::DeserializerError> for CacheError {
    open spec fn obeys_from_spec() -> bool {
        true
    }

    open spec fn from_spec(e: serde_value::DeserializerError) -> Self {
        CacheError::DeserializationError(e)
    }
}

/// A table of a [`CacheBackend`], as it was when it was looked up.
pub struct TableRef {
    name: String,
    entries: DashMap<String, Value>,
}

impl TableRef {
    /// The table's name.
    pub closed spec fn spec_name(&self) -> Seq<char> {
        self.name@
    }

    /// The table's entries.
    pub closed spec fn spec_entries(&self) -> Map<Seq<char>, Value> {
        table_entries(self.entries)
    }

    /// The table's name.
    pub fn key(&self) -> (r: &str)
        ensures
            r@ == self.spec_name(),
    {
        self.name.as_str()
    }

    /// The table's entries.
    pub fn value(&self) -> (r: &DashMap<String, Value>)
        ensures
            table_entries(*r) == self.spec_entries(),
    {
        &self.entries
    }
}

/// Whether `r` is the missing-table error for `table`.
pub open spec fn missing_table<T>(r: Result<T, CacheError>, table: Seq<char>) -> bool {
    r matches Err(CacheError::TableDoesntExist(t)) && t@ == table
}

/// A memory-based backend, keeping each table as a [`DashMap`] of [`Value`]s; unlike the
/// memory backend it refuses to work on tables that do not exist and to create an entry twice.
#[derive(Debug)]
pub struct CacheBackend {
    tables: DashMap<String, DashMap<String, Value>>,
}

impl View for CacheBackend {
    type V = Map<Seq<char>, Map<Seq<char>, Value>>;

    closed spec fn view(&self) -> Self::V {
        stored_tables(self.tables)
    }
}

impl CacheBackend {
    /// Creates a new [`CacheBackend`], with no tables.
    pub fn new() -> (r: Self)
        ensures
            r@ == empty_store(),
    {
        CacheBackend { tables: new_store() }
    }

    /// The number of tables.
    pub fn len(&self) -> (r: usize)
        ensures
            r == self@.len(),
    {
        store_len(&self.tables)
    }

    /// The table, as it is now.
    ///
    /// # Errors
    ///
    /// Returns [`CacheError::TableDoesntExist`] when there is no such table.
    pub fn get_table(&self, table: &str) -> (r: Result<TableRef, CacheError>)
        ensures
            self@.contains_key(table@) <==> r is Ok,
            r matches Ok(t) ==> t.spec_name() == table@ && t.spec_entries() == self@[table@],
            !self@.contains_key(table@) ==> missing_table(r, table@),
    {
        match store_get(&self.tables, table) {
            Some(entries) => Ok(TableRef { name: table.to_owned(), entries }),
            None => Err(CacheError::TableDoesntExist(table.to_owned())),
        }
    }

    /// Whether the table exists.
    pub fn has_table(&self, table: &str) -> (r: bool)
        ensures
            r == self@.contains_key(table@),
    {
        store_contains(&self.tables, table)
    }

    /// Creates the table, empty; an existing table of that name is replaced by an empty one.
    pub fn create_table(&mut self, table: &str)
        ensures
            final(self)@ == old(self)@.insert(table@, empty_table()),
    {
        let t = new_table();
        store_insert(&mut self.tables, table.to_owned(), t);
    }

    /// Deletes the table, if it exists.
    pub fn delete_table(&mut self, table: &str)
        ensures
            final(self)@ == old(self)@.remove(table@),
    {
        store_remove(&mut self.tables, table);
    }

    /// The keys of the table's entries, each once, in no stated order.
    ///
    /// # Errors
    ///
    /// Returns [`CacheError::TableDoesntExist`] when there is no such table.
    pub fn get_keys(&self, table: &str) -> (r: Result<Vec<String>, CacheError>)
        ensures
            self@.contains_key(table@) <==> r is Ok,
            !self@.contains_key(table@) ==> missing_table(r, table@),
            r matches Ok(keys) ==> {
                &&& forall|i: int, j: int| 0 <= i < j < keys@.len() ==> keys@[i]@ != keys@[j]@
                &&& keys@.len() == self@[table@].len()
                &&& forall|k: Seq<char>| self@[table@].contains_key(k) <==> exists|i: int|
                    0 <= i < keys@.len() && keys@[i]@ == k
            },
    {
        match store_get(&self.tables, table) {
            Some(t) => Ok(table_keys(t)),
            None => Err(CacheError::TableDoesntExist(table.to_owned())),
        }
    }

    /// The value stored under the key, if there is one.
    ///
    /// # Errors
    ///
    /// Returns [`CacheError::TableDoesntExist`] when there is no such table.
    pub fn get(&self, table: &str, id: &str) -> (r: Result<Option<Value>, CacheError>)
        ensures
            self@.contains_key(table@) ==> r == Ok::<Option<Value>, CacheError>(
                stored_value(self@, table@, id@),
            ),
            !self@.contains_key(table@) ==> missing_table(r, table@),
    {
        match store_get(&self.tables, table) {
            Some(t) => Ok(table_get(&t, id)),
            None => Err(CacheError::TableDoesntExist(table.to_owned())),
        }
    }

    /// Whether the table holds an entry under the key.
    ///
    /// # Errors
    ///
    /// Returns [`CacheError::TableDoesntExist`] when there is no such table.
    pub fn has(&self, table: &str, id: &str) -> (r: Result<bool, CacheError>)
        ensures
            self@.contains_key(table@) ==> r == Ok::<bool, CacheError>(
                stored_value(self@, table@, id@) is Some,
            ),
            !self@.contains_key(table@) ==> missing_table(r, table@),
    {
        match store_get(&self.tables, table) {
            Some(t) => Ok(table_contains(&t, id)),
            None => Err(CacheError::TableDoesntExist(table.to_owned())),
        }
    }

    /// Stores the value under a key that holds nothing yet.
    ///
    /// # Errors
    ///
    /// Returns [`CacheError::TableDoesntExist`] when there is no such table, and
    /// [`CacheError::ValueAlreadyExists`] when the key already holds a value; in both cases
    /// nothing changes.
    pub fn create(&mut self, table: &str, id: &str, value: Value) -> (r: Result<(), CacheError>)
        ensures
            !old(self)@.contains_key(table@) ==> missing_table(r, table@) && final(self)@ == old(
                self,
            )@,
            stored_value(old(self)@, table@, id@) is Some ==> (r matches Err(
                CacheError::ValueAlreadyExists,
            ) && final(self)@ == old(self)@),
            old(self)@.contains_key(table@) && stored_value(old(self)@, table@, id@) is None ==> r
                is Ok && final(self)@ == after_create(old(self)@, table@, id@, value),
    {
        match store_remove(&mut self.tables, table) {
            None => {
                assert(stored_tables(self.tables) =~= old(self)@);
                Err(CacheError::TableDoesntExist(table.to_owned()))
            },
            Some(mut t) => {
                if table_contains(&t, id) {
                    store_insert(&mut self.tables, table.to_owned(), t);
                    assert(stored_tables(self.tables) =~= old(self)@);
                    Err(CacheError::ValueAlreadyExists)
                } else {
                    table_insert(&mut t, id.to_owned(), value);
                    store_insert(&mut self.tables, table.to_owned(), t);
                    assert(stored_tables(self.tables) =~= after_create(
                        old(self)@,
                        table@,
                        id@,
                        value,
                    ));
                    Ok(())
                }
            },
        }
    }

    /// Stores the value under the key, replacing what was there.
    ///
    /// # Errors
    ///
    /// Returns [`CacheError::TableDoesntExist`] when there is no such table; nothing changes
    /// then.
    pub fn update(&mut self, table: &str, id: &str, value: Value) -> (r: Result<(), CacheError>)
        ensures
            !old(self)@.contains_key(table@) ==> missing_table(r, table@),
            old(self)@.contains_key(table@) ==> r is Ok,
            final(self)@ == after_create(old(self)@, table@, id@, value),
    {
        match store_remove(&mut self.tables, table) {
            None => {
                assert(stored_tables(self.tables) =~= old(self)@);
                Err(CacheError::TableDoesntExist(table.to_owned()))
            },
            Some(mut t) => {
                table_insert(&mut t, id.to_owned(), value);
                store_insert(&mut self.tables, table.to_owned(), t);
                assert(stored_tables(self.tables) =~= after_create(old(self)@, table@, id@, value));
                Ok(())
            },
        }
    }

    /// Replaces the value under the key; the same as [`update`](Self::update).
    ///
    /// # Errors
    ///
    /// Returns [`CacheError::TableDoesntExist`] when there is no such table.
    pub fn replace(&mut self, table: &str, id: &str, value: Value) -> (r: Result<(), CacheError>)
        ensures
            !old(self)@.contains_key(table@) ==> missing_table(r, table@),
            old(self)@.contains_key(table@) ==> r is Ok,
            final(self)@ == after_create(old(self)@, table@, id@, value),
    {
        self.update(table, id, value)
    }

    /// Deletes the entry under the key.
    ///
    /// # Errors
    ///
    /// Returns [`CacheError::TableDoesntExist`] when there is no such table; nothing changes
    /// then.
    pub fn delete(&mut self, table: &str, id: &str) -> (r: Result<(), CacheError>)
        ensures
            !old(self)@.contains_key(table@) ==> missing_table(r, table@),
            old(self)@.contains_key(table@) ==> r is Ok,
            final(self)@ == after_delete(old(self)@, table@, id@),
    {
        match store_remove(&mut self.tables, table) {
            None => {
                assert(stored_tables(self.tables) =~= old(self)@);
                Err(CacheError::TableDoesntExist(table.to_owned()))
            },
            Some(mut t) => {
                table_remove(&mut t, id);
                store_insert(&mut self.tables, table.to_owned(), t);
                assert(stored_tables(self.tables) =~= after_delete(old(self)@, table@, id@));
                Ok(())
            },
        }
    }
}

impl Clone for CacheBackend {
    /// A backend holding copies of the same tables.
    fn clone(&self) -> (r: Self)
        ensures
            r@ == self@,
    {
        CacheBackend { tables: store_clone(&self.tables) }
    }
}

impl Default for CacheBackend {
    fn default() -> (r: Self)
        ensures
            r@ == empty_store(),
    {
        CacheBackend::new()
    }
}

/// After a first create of an entry, the entry is present, so a second create of it is
/// refused with [`CacheError::ValueAlreadyExists`] and leaves the first value in place.
pub proof fn lemma_second_create_refused(
    tables: Map<Seq<char>, Map<Seq<char>, Value>>,
    table: Seq<char>,
    id: Seq<char>,
    first: Value,
)
    requires
        tables.contains_key(table),
    ensures
        after_create(tables, table, id, first).contains_key(table),
        stored_value(after_create(tables, table, id, first), table, id) == Some(first),
{
}

} // verus!
