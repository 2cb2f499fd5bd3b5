use starchart::backend::calls::collect_present;
use starchart::database::{check_type, replace_write, set_write, update_write, DatabaseError, DatabaseWrite};
use starchart::error::{ErrorSource, ErrorType};
use starchart::typed_action::{
    Action as TypedAction, ActionError as TypedActionError, CreateError, CreateResult,
    InvalidTargetError, MultiResult, OperationTarget as TypedTarget, ReadResult,
};
use starchart::action::{ActionKind, CreateOperation, EntryTarget, ReadOperation, TableTarget, UpdateOperation};
use starchart::util::{is_metadata, InnerUnwrap};
use starchart::{Error, METADATA_KEY};

#[test]
fn collect_present_keeps_order_and_first_error() {
    let replies: Vec<Result<Option<u8>, &str>> = vec![Ok(Some(1)), Ok(None), Ok(Some(3))];
    assert_eq!(collect_present(replies), Ok(vec![1, 3]));
    let replies: Vec<Result<Option<u8>, &str>> = vec![Ok(Some(1)), Err("first"), Err("second")];
    assert_eq!(collect_present(replies), Err("first"));
    let none: Vec<Result<Option<u8>, &str>> = Vec::new();
    assert_eq!(collect_present(none), Ok(Vec::new()));
}

#[test]
fn database_decisions() {
    assert!(check_type::<()>(true).is_ok());
    assert!(matches!(check_type::<()>(false), Err(DatabaseError::InvalidType)));
    assert_eq!(set_write(true), DatabaseWrite::Replace);
    assert_eq!(set_write(false), DatabaseWrite::Create);
    assert!(matches!(update_write::<()>(true), Ok(DatabaseWrite::Update)));
    assert!(matches!(update_write::<()>(false), Err(DatabaseError::ValueDoesntExist)));
    assert!(matches!(replace_write::<()>(true), Ok(DatabaseWrite::Replace)));
    assert!(matches!(replace_write::<()>(false), Err(DatabaseError::ValueDoesntExist)));
    assert_eq!(
        DatabaseError::<()>::ValueDoesntExist.to_string(String::new()),
        "the expected value doesn't exist in the database"
    );
    assert_eq!(DatabaseError::<()>::InvalidType.to_string(String::new()), "an invalid type was passed");
    let backend: DatabaseError<u8> = DatabaseError::from(4_u8);
    assert!(matches!(backend, DatabaseError::Backend(4)));
    assert_eq!(backend.to_string("disk full".to_owned()), "disk full");
}

#[test]
fn inner_unwrap_takes_the_value() {
    assert_eq!(Some(3).inner_unwrap(), 3);
    assert_eq!(Ok::<u8, ()>(5).inner_unwrap(), 5);
}

#[test]
fn metadata_key_is_reserved() {
    assert!(is_metadata(METADATA_KEY));
    assert!(is_metadata("__metadata__"));
    assert!(!is_metadata("__metadata"));
    assert!(!is_metadata(""));
}

#[test]
fn error_messages() {
    let memory: Error = starchart::backend::MemoryError::from(
        serde_value::Value::Bool(true).deserialize_into::<String>().unwrap_err(),
    )
    .into();
    assert_eq!(*memory.kind(), ErrorType::Memory);
    assert_eq!(memory.to_string(), "an error occurred with the memory backend");
    assert!(matches!(memory.into_source(), Some(ErrorSource::Memory(_))));
}

#[test]
fn typed_action_validation() {
    let mut create: TypedAction<u8, CreateOperation, EntryTarget> = TypedAction::create();
    assert_eq!(create.validate(), Err(TypedActionError::NoData));
    create.set_data(&1);
    assert_eq!(create.validate(), Err(TypedActionError::NoKey));
    create.set_key(&"k");
    assert_eq!(create.validate(), Ok(()));
    assert!(create.is_validated());
    create.set_key(&"j");
    assert!(!create.is_validated());

    let mut read_table: TypedAction<u8, ReadOperation, TableTarget> = TypedAction::read();
    assert_eq!(read_table.validate(), Ok(()));

    let mut update_table: TypedAction<u8, UpdateOperation, TableTarget> = TypedAction::update();
    assert_eq!(update_table.validate(), Err(TypedActionError::UpdatingTable));

    let moved = read_table.into_entry();
    assert_eq!(moved.target(), TypedTarget::Entry);
    assert_eq!(moved.kind(), ActionKind::Read);
    let as_delete = moved.into_delete();
    assert_eq!(as_delete.kind(), ActionKind::Delete);
    assert_eq!(TypedActionError::UpdatingTable.to_string(), "updating an entire table is unsupported");
}

#[test]
fn typed_results() {
    let created = CreateResult::Entity(Ok(()));
    assert!(created.entity().unwrap().is_ok());
    let read: ReadResult<u8> = ReadResult::Table(Ok(vec![1, 2]));
    assert_eq!(read.try_into_table().unwrap().unwrap(), vec![1, 2]);
    let read: ReadResult<u8> = ReadResult::Table(Ok(vec![1]));
    assert!(matches!(read.try_into_entity(), Err(InvalidTargetError::ExpectedEntity)));
    assert_eq!(
        InvalidTargetError::ExpectedTable.to_string(),
        "attempted conversion of entity result into table"
    );
    let err = CreateError::new(ErrorSource::External("x".to_owned()), TypedTarget::Table);
    assert_eq!(err.to_string(), "an error happened during Table creation");
}
