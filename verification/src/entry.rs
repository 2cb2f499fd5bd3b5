//! The traits that stored values implement.
use vstd::prelude::*;

verus! {

/// The key trait to be implemented on entries to allow an easy way to get keys.
///
/// Every type that can be displayed is a key, by its displayed text.
pub trait Key: core::fmt::Display {
    /// The method to transform a [`Key`] into a value: the key's displayed text.
    fn to_key(&self) -> (s: String)
        ensures
            vstd::string::to_string_from_display_ensures::<Self>(self, s),
    ;
}

/// Whether `text` is the displayed text of `key`, the text [`Key::to_key`] gives.
pub open spec fn is_key_text<K: Key + ?Sized>(key: &K, text: Seq<char>) -> bool {
    exists|s: String| #[trigger] vstd::string::to_string_from_display_ensures::<K>(key, s) && s@ == text
}

impl<T: core::fmt::Display + ?Sized> Key for T {
    /// The displayed text, as `ToString` gives it.
    fn to_key(&self) -> (s: String) {
        self.to_string()
    }
}

/// A marker trait for values that can be stored in a chart.
pub trait Entry: Clone + core::fmt::Debug + Default + Send + Sync {

}

impl<T: Clone + core::fmt::Debug + Default + Send + Sync> Entry for T {

}

/// An indexable entry, used for any [`Entry`] that can be indexed by a [`Key`] that it owns.
pub trait IndexEntry: Entry {
    /// The [`Key`] type to index by.
    type Key: Key;

    /// Returns the valid key for the database to index from.
    fn key(&self) -> Self::Key;
}

/// Whether `text` is the displayed text of a key that [`IndexEntry::key`] gives for `entity`.
pub open spec fn is_entry_key_text<S: IndexEntry>(entity: &S, text: Seq<char>) -> bool {
    exists|k: S::Key| #[trigger] call_ensures(S::key, (entity,), k) && is_key_text(&k, text)
}

/// The text of the key of `entity`: its key, taken through [`IndexEntry::key`], as
/// [`Key::to_key`] gives it.
pub(crate) fn entry_key_text<S: IndexEntry>(entity: &S) -> (t: String)
    ensures
        is_entry_key_text(entity, t@),
{
    let key_of = S::key;
    let key = key_of(entity);
    let t = key.to_key();
    assert(is_key_text(&key, t@));
    t
}

} // verus!
