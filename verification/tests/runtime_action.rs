use starchart::runtime_action::{Action, ActionError, ActionKind, OperationTarget};

#[derive(Debug, Default, Clone, Copy, PartialEq)]
struct Settings {
    key: u32,
}

#[test]
fn basic() {
    let mut action = Action::<Settings>::new(ActionKind::Create);

    assert_eq!(action.kind(), ActionKind::Create);
    assert_eq!(action.target(), OperationTarget::Unknown);

    assert!(action.table_name().is_none());
    assert!(action.data().is_none());

    assert!(action.validate().is_err());
}

#[test]
fn crud_constructors() {
    let create = Action::<Settings>::create();

    assert_eq!(create.kind(), ActionKind::Create);

    let read = Action::<Settings>::read();

    assert_eq!(read.kind(), ActionKind::Read);

    let update = Action::<Settings>::update();

    assert_eq!(update.kind(), ActionKind::Update);

    let delete = Action::<Settings>::delete();

    assert_eq!(delete.kind(), ActionKind::Delete);
}

#[test]
fn action_default() {
    let mut action = Action::<Settings>::default();

    assert_eq!(action.kind(), ActionKind::Read);

    assert!(action.table_name().is_none());

    assert!(action.data().is_none());

    assert!(action.validate().is_err());

    assert_eq!(action.target(), OperationTarget::Unknown);
}

#[test]
fn validate() {
    let mut action = Action::<Settings>::new(ActionKind::Create);

    assert!(action.validate().is_err());

    assert!(!action.is_validated());

    action.set_target(OperationTarget::Table);

    assert!(action.validate().is_ok());

    assert!(action.is_validated());

    action.validate().unwrap();

    assert!(action.is_validated());

    let new_action = action.set_target(OperationTarget::Entity);

    assert!(!new_action.is_validated());

    assert!(new_action.validate().is_ok());
}

#[test]
fn runtime_validate_error_is_invalid_operation() {
    let mut action = Action::<Settings>::update();
    assert_eq!(action.validate(), Err(ActionError::InvalidOperation));
    assert_eq!(
        ActionError::InvalidOperation.to_string(),
        "an invalid operation was set"
    );
    assert!(!action.is_validated());
}

#[test]
fn runtime_target_default_is_unknown() {
    assert_eq!(OperationTarget::default(), OperationTarget::Unknown);
}
