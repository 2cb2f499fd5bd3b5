use std::collections::BTreeMap;

use serde_value::{to_value, Value};
use starchart::backend::{MemoryBackend, MemoryError, MemoryErrorType};

fn settings(option: bool, times: u32) -> Value {
    let mut map = BTreeMap::new();
    map.insert(Value::String("option".to_owned()), Value::Bool(option));
    map.insert(Value::String("times".to_owned()), Value::U32(times));
    Value::Map(map)
}

#[test]
fn memory_new() {
    let cache_backend = MemoryBackend::new();

    assert_eq!(cache_backend.len(), 0);
}

#[test]
fn memory_tables() {
    let mut backend = MemoryBackend::new();
    assert!(!backend.has_table("test"));
    backend.create_table("test");
    assert!(backend.has_table("test"));
    assert_eq!(backend.len(), 1);
    backend.delete_table("test");
    assert!(!backend.has_table("test"));
    backend.ensure_table("t");
    backend.create("t", "k", Value::U8(3));
    backend.ensure_table("t");
    assert_eq!(backend.get("t", "k"), Some(Value::U8(3)));
}

#[test]
fn memory_read_after_write() {
    let mut backend = MemoryBackend::new();
    backend.create_table("test");
    backend.create("test", "foo", settings(true, 42));
    assert_eq!(backend.get("test", "foo"), Some(settings(true, 42)));
    assert_eq!(backend.get("test", "bar"), None);
    assert!(backend.has("test", "foo"));
    assert!(!backend.has("test", "bar"));
    backend.update("test", "foo", settings(false, 43));
    assert_eq!(backend.get("test", "foo"), Some(settings(false, 43)));
    backend.replace("test", "foo", settings(true, 44));
    assert_eq!(backend.get("test", "foo"), Some(settings(true, 44)));
    backend.delete("test", "foo");
    assert!(!backend.has("test", "foo"));
}

#[test]
fn memory_missing_table_is_quiet() {
    let mut backend = MemoryBackend::new();
    backend.create("none", "id", Value::Bool(true));
    assert!(!backend.has_table("none"));
    assert_eq!(backend.get("none", "id"), None);
    assert!(backend.get_keys("none").is_empty());
    assert!(backend.get_all("none", &["id"]).is_empty());
    backend.delete("none", "id");
    assert_eq!(backend.len(), 0);
}

#[test]
fn memory_keys_and_values() {
    let mut backend = MemoryBackend::new();
    backend.create_table("test");
    backend.create("test", "id", to_value("value").unwrap());
    backend.create("test", "id2", to_value("value2").unwrap());
    let mut keys = backend.get_keys("test");
    keys.sort();
    assert_eq!(keys, vec!["id".to_owned(), "id2".to_owned()]);

    let mut values: Vec<String> = backend
        .get_all("test", &["id", "id2", "doesn't exist"])
        .into_iter()
        .map(|v| v.deserialize_into().unwrap())
        .collect();
    values.sort();
    assert_eq!(values, vec!["value".to_owned(), "value2".to_owned()]);
    assert_eq!(backend.get_all("test", &["id2"]), vec![to_value("value2").unwrap()]);
}

#[test]
fn memory_ensure_keeps_existing() {
    let mut backend = MemoryBackend::new();
    backend.create_table("test");
    backend.ensure("test", "id", Value::U8(1));
    backend.ensure("test", "id", Value::U8(2));
    assert_eq!(backend.get("test", "id"), Some(Value::U8(1)));
}

#[test]
fn memory_error_conversions() {
    let de_err = Value::Bool(true).deserialize_into::<String>().unwrap_err();
    let e = MemoryError::from(de_err);
    assert_eq!(*e.kind(), MemoryErrorType::Deserialization);
    assert_eq!(e.to_string(), "a deserialization error occurred");
    assert!(e.into_source().is_some());
}
