use serde_value::Value;
use starchart::accessor::{AccessRun, AccessStep};
use starchart::action::{
    Action, ActionErrorType, ActionResult, ActionRun, BackendReply, BackendRequest,
    CreateOperation, DeleteOperation, EntryTarget, ReadOperation, RunOperation, RunStep,
    TableTarget, UpdateOperation,
};
use starchart::backend::MemoryBackend;
use starchart::error::ErrorSource;
use starchart::METADATA_KEY;

/// Performs one request on the memory backend, with `data` as the entry to write.
fn perform(backend: &mut MemoryBackend, data: Option<&Value>, request: BackendRequest) -> BackendReply<Value> {
    match request {
        BackendRequest::Get { table, key } => BackendReply::Value(backend.get(&table, &key)),
        BackendRequest::Has { table, key } => BackendReply::Flag(backend.has(&table, &key)),
        BackendRequest::HasTable { table } => BackendReply::Flag(backend.has_table(&table)),
        BackendRequest::Ensure { table, key } => {
            backend.ensure(&table, &key, data.unwrap().clone());
            BackendReply::Done
        }
        BackendRequest::Create { table, key } => {
            backend.create(&table, &key, data.unwrap().clone());
            BackendReply::Done
        }
        BackendRequest::Update { table, key } => {
            backend.update(&table, &key, data.unwrap().clone());
            BackendReply::Done
        }
        BackendRequest::Delete { table, key } => {
            backend.delete(&table, &key);
            BackendReply::Done
        }
        BackendRequest::EnsureTable { table } => {
            backend.ensure_table(&table);
            BackendReply::Done
        }
        BackendRequest::CreateTable { table } => {
            backend.create_table(&table);
            BackendReply::Done
        }
        BackendRequest::EnsureMetadata { table } => {
            backend.ensure(&table, METADATA_KEY, Value::Unit);
            BackendReply::Done
        }
        BackendRequest::DeleteTable { table } => {
            backend.delete_table(&table);
            BackendReply::Done
        }
        BackendRequest::GetKeys { table } => BackendReply::Keys(backend.get_keys(&table)),
        BackendRequest::GetAll { table, keys } => {
            let keys: Vec<&str> = keys.iter().map(String::as_str).collect();
            BackendReply::Values(backend.get_all(&table, &keys))
        }
    }
}

fn drive(
    backend: &mut MemoryBackend,
    data: Option<&Value>,
    (mut run, mut step): (ActionRun, RunStep<Value>),
) -> Result<ActionResult<Value>, starchart::action::ActionError> {
    loop {
        match step {
            RunStep::Finish(result) => return result,
            RunStep::Request(request) => {
                let reply = perform(backend, data, request);
                step = run.resume(reply);
            }
        }
    }
}

fn access(
    backend: &mut MemoryBackend,
    op: RunOperation,
    table: &str,
    key: &str,
    data: Option<&Value>,
) -> Result<ActionResult<Value>, starchart::accessor::AccessorError> {
    let (mut run, mut step) = AccessRun::start::<Value>(op, table, key, "Value");
    loop {
        match step {
            AccessStep::Finish(result) => return result,
            AccessStep::Request(request) => {
                let reply = perform(backend, data, request);
                step = run.resume(reply);
            }
        }
    }
}

#[test]
fn action_run_create_read_update_delete() {
    let mut backend = MemoryBackend::new();

    let mut create_table: Action<Value, CreateOperation, TableTarget> = Action::create_table();
    create_table.set_table("table");
    let r = drive(&mut backend, None, create_table.start_run::<Value>("Value")).unwrap();
    assert!(matches!(r, ActionResult::Create));
    assert!(backend.has_table("table"));
    assert_eq!(backend.get("table", METADATA_KEY), Some(Value::Unit));

    let first = Value::U64(7);
    let mut create: Action<Value, CreateOperation, EntryTarget> = Action::create_entry();
    create.set_table("table").set_key(&"7").set_data(&first);
    let r = drive(&mut backend, create.data(), create.start_run::<Value>("Value")).unwrap();
    assert!(matches!(r, ActionResult::Create));

    let second = Value::U64(8);
    let mut again: Action<Value, CreateOperation, EntryTarget> = Action::create_entry();
    again.set_table("table").set_key(&"7").set_data(&second);
    drive(&mut backend, again.data(), again.start_run::<Value>("Value")).unwrap();
    assert_eq!(backend.get("table", "7"), Some(Value::U64(7)));

    let mut read: Action<Value, ReadOperation, EntryTarget> = Action::read_entry();
    read.set_table("table").set_key(&"7");
    let r = drive(&mut backend, None, read.start_run::<Value>("Value")).unwrap();
    assert_eq!(r.read_single(), Some(Value::U64(7)));

    let updated = Value::U64(9);
    let mut update: Action<Value, UpdateOperation, EntryTarget> = Action::update_entry();
    update.set_table("table").set_key(&"7").set_data(&updated);
    let r = drive(&mut backend, update.data(), update.start_run::<Value>("Value")).unwrap();
    assert!(matches!(r, ActionResult::Update));
    assert_eq!(backend.get("table", "7"), Some(Value::U64(9)));

    let mut read_table: Action<Value, ReadOperation, TableTarget> = Action::read_table();
    read_table.set_table("table");
    let r = drive(&mut backend, None, read_table.start_run::<Value>("Value")).unwrap();
    assert_eq!(r.read_multiple(), vec![Value::U64(9)]);

    let mut delete: Action<Value, DeleteOperation, EntryTarget> = Action::delete_entry();
    delete.set_table("table").set_key(&"7");
    let r = drive(&mut backend, None, delete.start_run::<Value>("Value")).unwrap();
    assert!(r.delete());
    let r = drive(&mut backend, None, delete.start_run::<Value>("Value")).unwrap();
    assert!(!r.delete());

    let mut delete_table: Action<Value, DeleteOperation, TableTarget> = Action::delete_table();
    delete_table.set_table("table");
    let r = drive(&mut backend, None, delete_table.start_run::<Value>("Value")).unwrap();
    assert!(r.delete());
    assert!(!backend.has_table("table"));
}

#[test]
fn action_run_invalid_never_reaches_backend() {
    let mut backend = MemoryBackend::new();
    let mut read: Action<Value, ReadOperation, EntryTarget> = Action::read_entry();
    read.set_table("__metadata__").set_key(&"1");
    let (_, step) = read.start_run::<Value>("Value");
    match step {
        RunStep::Finish(Err(e)) => assert_eq!(*e.kind(), ActionErrorType::Validation),
        _ => panic!("expected a validation error"),
    }
    let missing: Action<Value, ReadOperation, EntryTarget> = Action::read_entry();
    let err = drive(&mut backend, None, missing.start_run::<Value>("Value")).unwrap_err();
    assert_eq!(*err.kind(), ActionErrorType::Validation);
    assert_eq!(backend.len(), 0);
}

#[test]
fn action_run_failed_call_is_run_error() {
    let mut read: Action<Value, ReadOperation, EntryTarget> = Action::read_entry();
    read.set_table("table").set_key(&"1");
    let (mut run, step) = read.start_run::<Value>("Value");
    assert!(matches!(step, RunStep::Request(BackendRequest::Get { .. })));
    match run.resume(BackendReply::<Value>::Failed(ErrorSource::External("boom".to_owned()))) {
        RunStep::Finish(Err(e)) => assert_eq!(*e.kind(), ActionErrorType::Run),
        _ => panic!("expected a run error"),
    }
    assert!(run.is_finished());
}

#[test]
fn access_create_twice_keeps_first() {
    let mut backend = MemoryBackend::new();
    access(&mut backend, RunOperation::CreateTable, "t", "", None).unwrap();
    assert_eq!(backend.get("t", METADATA_KEY), Some(Value::Unit));
    access(&mut backend, RunOperation::CreateEntry, "t", "a", Some(&Value::U8(1))).unwrap();
    access(&mut backend, RunOperation::CreateEntry, "t", "a", Some(&Value::U8(2))).unwrap();
    let r = access(&mut backend, RunOperation::ReadEntry, "t", "a", None).unwrap();
    assert_eq!(r.read_single(), Some(Value::U8(1)));
    access(&mut backend, RunOperation::UpdateEntry, "t", "a", Some(&Value::U8(3))).unwrap();
    let r = access(&mut backend, RunOperation::ReadTable, "t", "", None).unwrap();
    assert_eq!(r.read_multiple(), vec![Value::U8(3)]);
    let r = access(&mut backend, RunOperation::DeleteEntry, "t", "a", None).unwrap();
    assert!(r.delete());
    let r = access(&mut backend, RunOperation::DeleteEntry, "t", "a", None).unwrap();
    assert!(!r.delete());
    let r = access(&mut backend, RunOperation::DeleteTable, "t", "", None).unwrap();
    assert!(r.delete());
    let r = access(&mut backend, RunOperation::DeleteTable, "t", "", None).unwrap();
    assert!(!r.delete());
}

#[test]
fn access_metadata_key_is_refused() {
    let mut backend = MemoryBackend::new();
    let err = access(&mut backend, RunOperation::ReadEntry, "t", "__metadata__", None).unwrap_err();
    assert!(matches!(
        err.to_string().as_str(),
        "the `__metadata__` key is restricted"
    ));
    let err = access(&mut backend, RunOperation::CreateTable, "__metadata__", "", None).unwrap_err();
    assert_eq!(err.to_string(), "the `__metadata__` key is restricted");
    assert_eq!(backend.len(), 0);
}

#[test]
fn access_failed_metadata_names_type_and_table() {
    let (mut run, step) = AccessRun::start::<Value>(RunOperation::ReadEntry, "t", "k", "Settings");
    assert!(matches!(step, AccessStep::Request(BackendRequest::Get { .. })));
    match run.resume(BackendReply::<Value>::Failed(ErrorSource::External("x".to_owned()))) {
        AccessStep::Finish(Err(e)) => {
            assert_eq!(
                e.to_string(),
                "invalid entry was provided, Settingsdoes not match the metadata for table t"
            );
        }
        _ => panic!("expected a metadata error"),
    }
}

#[test]
fn memory_runs_actions() {
    let mut backend = MemoryBackend::new();
    let meta = Value::Unit;

    let mut create_table: Action<Value, CreateOperation, TableTarget> = Action::create_table();
    create_table.set_table("settings");
    assert!(matches!(backend.run_action(&create_table, &meta), Ok(ActionResult::Create)));
    assert_eq!(backend.get("settings", METADATA_KEY), Some(Value::Unit));

    let first = Value::String("dark".to_owned());
    let mut create: Action<Value, CreateOperation, EntryTarget> = Action::create_entry();
    create.set_table("settings").set_key(&"theme").set_data(&first);
    assert!(matches!(backend.run_action(&create, &meta), Ok(ActionResult::Create)));

    let second = Value::String("light".to_owned());
    let mut again: Action<Value, CreateOperation, EntryTarget> = Action::create_entry();
    again.set_table("settings").set_key(&"theme").set_data(&second);
    backend.run_action(&again, &meta).unwrap();

    let mut read: Action<Value, ReadOperation, EntryTarget> = Action::read_entry();
    read.set_table("settings").set_key(&"theme");
    assert_eq!(backend.run_action(&read, &meta).unwrap().read_single(), Some(first.clone()));

    let mut update: Action<Value, UpdateOperation, EntryTarget> = Action::update_entry();
    update.set_table("settings").set_key(&"theme").set_data(&second);
    backend.run_action(&update, &meta).unwrap();
    assert_eq!(backend.run_action(&read, &meta).unwrap().read_single(), Some(second.clone()));

    let mut read_table: Action<Value, ReadOperation, TableTarget> = Action::read_table();
    read_table.set_table("settings");
    assert_eq!(backend.run_action(&read_table, &meta).unwrap().read_multiple(), vec![second]);

    let mut delete: Action<Value, DeleteOperation, EntryTarget> = Action::delete_entry();
    delete.set_table("settings").set_key(&"theme");
    assert!(backend.run_action(&delete, &meta).unwrap().delete());
    assert_eq!(backend.run_action(&read, &meta).unwrap().read_single(), None);
    assert!(!backend.run_action(&delete, &meta).unwrap().delete());

    let mut bad: Action<Value, ReadOperation, EntryTarget> = Action::read_entry();
    bad.set_table("__metadata__").set_key(&"theme");
    let err = backend.run_action(&bad, &meta).unwrap_err();
    assert_eq!(*err.kind(), ActionErrorType::Validation);

    let mut delete_table: Action<Value, DeleteOperation, TableTarget> = Action::delete_table();
    delete_table.set_table("settings");
    assert!(backend.run_action(&delete_table, &meta).unwrap().delete());
    assert!(!backend.run_action(&delete_table, &meta).unwrap().delete());
}

#[test]
fn memory_direct_access() {
    let mut backend = MemoryBackend::new();
    let meta = Value::Unit;
    let one = Value::U8(1);
    let two = Value::U8(2);
    backend.access(RunOperation::CreateTable, "t", "", &one, &meta).unwrap();
    assert_eq!(backend.get("t", METADATA_KEY), Some(Value::Unit));
    backend.access(RunOperation::CreateEntry, "t", "a", &one, &meta).unwrap();
    backend.access(RunOperation::CreateEntry, "t", "a", &two, &meta).unwrap();
    let read = backend.access(RunOperation::ReadEntry, "t", "a", &one, &meta).unwrap();
    assert_eq!(read.read_single(), Some(Value::U8(1)));
    backend.access(RunOperation::UpdateEntry, "t", "a", &two, &meta).unwrap();
    let all = backend.access(RunOperation::ReadTable, "t", "", &one, &meta).unwrap();
    assert_eq!(all.read_multiple(), vec![Value::U8(2)]);
    assert!(backend.access(RunOperation::DeleteEntry, "t", "a", &one, &meta).unwrap().delete());
    assert!(!backend.access(RunOperation::DeleteEntry, "t", "a", &one, &meta).unwrap().delete());
    assert!(backend.access(RunOperation::ReadEntry, "t", "__metadata__", &one, &meta).is_err());
    assert!(backend.access(RunOperation::DeleteTable, "t", "", &one, &meta).unwrap().delete());
    assert!(!backend.has_table("t"));
}

#[test]
fn deletes() {
    let mut backend = MemoryBackend::new();
    let meta = Value::Unit;

    let mut create_table: Action<Value, CreateOperation, TableTarget> = Action::create_table();
    create_table.set_table("table");
    backend.run_action(&create_table, &meta).unwrap();

    let def = Value::U32(0);
    let mut create: Action<Value, CreateOperation, EntryTarget> = Action::create_entry();
    create.set_table("table").set_key(&0_u32).set_data(&def);
    assert!(matches!(backend.run_action(&create, &meta), Ok(ActionResult::Create)));

    let mut delete: Action<Value, DeleteOperation, EntryTarget> = Action::delete_entry();
    delete.set_table("table").set_key(&0_u32);
    assert!(backend.run_action(&delete, &meta).unwrap().delete());
    let mut read: Action<Value, ReadOperation, EntryTarget> = Action::read_entry();
    read.set_table("table").set_key(&0_u32);
    assert_eq!(backend.run_action(&read, &meta).unwrap().read_single(), None);

    let mut delete_table: Action<Value, DeleteOperation, TableTarget> = Action::delete_table();
    delete_table.set_table("table");
    assert!(backend.run_action(&delete_table, &meta).unwrap().delete());
    let mut read_table: Action<Value, ReadOperation, TableTarget> = Action::read_table();
    read_table.set_table("table");

    let res = backend.run_action(&read_table, &meta);

    assert!(res.is_err());
    assert_eq!(*res.unwrap_err().kind(), ActionErrorType::Run);
}

#[test]
fn access_read_of_deleted_table_fails() {
    let mut backend = MemoryBackend::new();
    let meta = Value::Unit;
    let one = Value::U8(1);
    backend.access(RunOperation::CreateTable, "t", "", &one, &meta).unwrap();
    backend.access(RunOperation::CreateEntry, "t", "a", &one, &meta).unwrap();
    assert!(backend.access(RunOperation::DeleteTable, "t", "", &one, &meta).unwrap().delete());
    let err = backend.access(RunOperation::ReadTable, "t", "", &one, &meta).unwrap_err();
    assert_eq!(
        err.to_string(),
        "invalid entry was provided, Valuedoes not match the metadata for table t"
    );
    // A table that was never created is read the same way.
    assert!(backend.access(RunOperation::ReadTable, "never", "", &one, &meta).is_err());
}
