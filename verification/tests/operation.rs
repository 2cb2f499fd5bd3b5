use starchart::action::{
    ActionKind, CreateOperation, CrudOperation, DeleteOperation, EntryTarget, OperationTarget,
    ReadOperation, TableTarget, TargetKind, UpdateOperation,
};

#[test]
fn kind() {
    assert_eq!(CreateOperation::kind(), ActionKind::Create);
    assert_eq!(ReadOperation::kind(), ActionKind::Read);
    assert_eq!(UpdateOperation::kind(), ActionKind::Update);
    assert_eq!(DeleteOperation::kind(), ActionKind::Delete);
}

#[test]
fn target() {
    assert_eq!(TableTarget::target(), TargetKind::Table);
    assert_eq!(EntryTarget::target(), TargetKind::Entry);
}
