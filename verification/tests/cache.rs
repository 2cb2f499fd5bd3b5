use std::collections::BTreeMap;

use serde_value::{to_value, Value};
use starchart::backend::{CacheBackend, CacheError};

fn settings(option: bool, times: u32) -> Value {
    let mut map = BTreeMap::new();
    map.insert(Value::String("option".to_owned()), Value::Bool(option));
    map.insert(Value::String("times".to_owned()), Value::U32(times));
    Value::Map(map)
}

#[test]
fn cache_new() {
    let cache_backend = CacheBackend::new();

    assert_eq!(cache_backend.len(), 0);
}

#[test]
fn get_table() -> Result<(), CacheError> {
    let mut cache_backend = CacheBackend::new();

    cache_backend.create_table("test");

    let table = cache_backend.get_table("test")?;

    assert_eq!(table.key(), "test");

    assert!(cache_backend.get_table("test2").is_err());

    Ok(())
}

#[test]
fn cache_has_table() -> Result<(), CacheError> {
    let cache_backend = CacheBackend::new();

    assert!(!cache_backend.has_table("test"));

    Ok(())
}

#[test]
fn cache_create_table() -> Result<(), CacheError> {
    let mut cache_backend = CacheBackend::new();

    cache_backend.create_table("test");

    assert!(cache_backend.has_table("test"));

    Ok(())
}

#[test]
fn cache_delete_table() -> Result<(), CacheError> {
    let mut cache_backend = CacheBackend::new();

    cache_backend.create_table("test");

    assert!(cache_backend.has_table("test"));

    cache_backend.delete_table("test");

    assert!(!cache_backend.has_table("test"));

    Ok(())
}

#[test]
fn get_keys() -> Result<(), CacheError> {
    let mut cache_backend = CacheBackend::new();

    cache_backend.create_table("test");

    cache_backend.create("test", "key", to_value("value")?)?;

    let keys = cache_backend.get_keys("test")?;

    assert_eq!(keys, vec!["key".to_owned()]);

    Ok(())
}

#[test]
fn cache_get_and_create() -> Result<(), CacheError> {
    let mut cache_backend = CacheBackend::new();

    let settings_value = settings(true, 42);

    cache_backend.create_table("test");

    cache_backend.create("test", "foo", settings_value.clone())?;

    let read = cache_backend.get("test", "foo")?;

    assert_eq!(read, Some(settings(true, 42)));

    let not_existing = cache_backend.get("test", "bar")?;

    assert_eq!(not_existing, None);

    assert!(cache_backend.create("test", "foo", settings_value).is_err());

    Ok(())
}

#[test]
fn cache_has() -> Result<(), CacheError> {
    let mut cache_backend = CacheBackend::new();

    cache_backend.create_table("test");

    cache_backend.create("test", "foo", settings(true, 42))?;

    assert!(cache_backend.has("test", "foo")?);

    assert!(!cache_backend.has("test", "bar")?);

    Ok(())
}

#[test]
fn cache_update_and_replace() -> Result<(), CacheError> {
    let mut cache_backend = CacheBackend::new();

    cache_backend.create_table("test");

    cache_backend.create("test", "foo", settings(true, 42))?;

    cache_backend.update("test", "foo", settings(false, 43))?;

    assert_eq!(cache_backend.get("test", "foo")?, Some(settings(false, 43)));

    cache_backend.replace("test", "foo", settings(true, 44))?;

    assert_eq!(cache_backend.get("test", "foo")?, Some(settings(true, 44)));

    Ok(())
}

#[test]
fn cache_delete() -> Result<(), CacheError> {
    let mut cache_backend = CacheBackend::new();

    cache_backend.create_table("test");

    cache_backend.create("test", "foo", settings(true, 42))?;

    assert!(cache_backend.has("test", "foo")?);

    cache_backend.delete("test", "foo")?;

    assert!(!cache_backend.has("test", "foo")?);

    Ok(())
}

#[test]
fn cache_missing_table_errors() {
    let mut cache_backend = CacheBackend::new();
    match cache_backend.get("nope", "id") {
        Err(CacheError::TableDoesntExist(t)) => assert_eq!(t, "nope"),
        other => panic!("unexpected {:?}", other),
    }
    assert!(matches!(cache_backend.has("nope", "id"), Err(CacheError::TableDoesntExist(_))));
    assert!(matches!(cache_backend.get_keys("nope"), Err(CacheError::TableDoesntExist(_))));
    assert!(matches!(
        cache_backend.create("nope", "id", Value::Bool(true)),
        Err(CacheError::TableDoesntExist(_))
    ));
    assert!(matches!(
        cache_backend.update("nope", "id", Value::Bool(true)),
        Err(CacheError::TableDoesntExist(_))
    ));
    assert!(matches!(cache_backend.delete("nope", "id"), Err(CacheError::TableDoesntExist(_))));
    assert!(!cache_backend.has_table("nope"));
    assert_eq!(
        CacheError::TableDoesntExist("nope".to_owned()).to_string(),
        "the table nope does not exist"
    );
    assert_eq!(CacheError::ValueAlreadyExists.to_string(), "value already exists");
}

#[test]
fn cache_clone_keeps_tables() -> Result<(), CacheError> {
    let mut cache_backend = CacheBackend::default();
    cache_backend.create_table("t");
    cache_backend.create("t", "a", Value::U8(1))?;
    let copy = cache_backend.clone();
    cache_backend.delete("t", "a")?;
    assert_eq!(copy.get("t", "a")?, Some(Value::U8(1)));
    assert_eq!(cache_backend.get("t", "a")?, None);
    assert_eq!(copy.len(), 1);
    Ok(())
}
