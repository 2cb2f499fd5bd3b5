use starchart::action::{
    Action, ActionKind, ActionValidationErrorType, CreateOperation, DeleteOperation, EntryTarget,
    ReadOperation, TableTarget, TargetKind, UpdateOperation,
};
use starchart::IndexEntry;

#[derive(Debug, Default, Clone, Copy, PartialEq, Eq, PartialOrd, Ord, Hash)]
struct Settings {
    id: u64,
    option: bool,
    value: u8,
}

impl IndexEntry for Settings {
    type Key = u64;

    fn key(&self) -> Self::Key {
        self.id
    }
}

#[test]
fn new_kind_and_target() {
    let action: Action<Settings, ReadOperation, EntryTarget> = Action::new();

    assert_eq!(action.kind(), ActionKind::Read);
    assert_eq!(action.target(), TargetKind::Entry);
}

#[test]
fn set_methods() {
    let def = Settings::default();
    let mut action: Action<Settings, ReadOperation, EntryTarget> =
        Action::read_entry().set_entry(&def).clone();

    assert_eq!(action.data(), Some(&Settings::default()));
    assert_eq!(action.key(), Some("0"));

    let mut action = action.set_key(&"1").clone();
    assert_eq!(action.key(), Some("1"));

    let action = action.set_data(&Settings {
        id: 7,
        option: false,
        value: 79,
    });

    assert_eq!(
        action.data(),
        Some(&Settings {
            id: 7,
            option: false,
            value: 79
        })
    );
}

#[test]
fn constructor_methods() {
    let create_table: Action<Settings, CreateOperation, TableTarget> = Action::create_table();
    assert_eq!(
        (create_table.kind(), create_table.target()),
        (ActionKind::Create, TargetKind::Table)
    );

    let read_entry: Action<Settings, ReadOperation, EntryTarget> = Action::read_entry();
    assert_eq!(
        (read_entry.kind(), read_entry.target()),
        (ActionKind::Read, TargetKind::Entry)
    );

    let update_entry: Action<Settings, UpdateOperation, EntryTarget> = Action::update_entry();
    assert_eq!(
        (update_entry.kind(), update_entry.target()),
        (ActionKind::Update, TargetKind::Entry)
    );

    let delete_entry: Action<Settings, DeleteOperation, EntryTarget> = Action::delete_entry();
    assert_eq!(
        (delete_entry.kind(), delete_entry.target()),
        (ActionKind::Delete, TargetKind::Entry)
    );

    let read_table: Action<Settings, ReadOperation, TableTarget> = Action::read_table();
    assert_eq!(
        (read_table.kind(), read_table.target()),
        (ActionKind::Read, TargetKind::Table)
    );

    let delete_table: Action<Settings, DeleteOperation, TableTarget> = Action::delete_table();
    assert_eq!(
        (delete_table.kind(), delete_table.target()),
        (ActionKind::Delete, TargetKind::Table)
    );

    let create_entry: Action<Settings, CreateOperation, EntryTarget> = Action::create_entry();
    assert_eq!(
        (create_entry.kind(), create_entry.target()),
        (ActionKind::Create, TargetKind::Entry)
    );
}

#[test]
fn mod_default() {
    let default = Action::<Settings, ReadOperation, EntryTarget>::default();

    assert!(default.data().is_none());
    assert!(default.key().is_none());
}

#[test]
fn validation_methods() {
    let mut action: Action<Settings, ReadOperation, EntryTarget> = Action::default();

    assert!(action.validate_key().is_err());
    action.set_key(&"foo");
    assert!(action.validate_key().is_ok());

    assert!(action.validate_table().is_err());
    action.set_table("test");
    assert!(action.validate_table().is_ok());

    assert!(action.validate_data().is_err());
    let def = Settings::default();
    action.set_data(&def);
    assert!(action.validate_data().is_ok());

    action.set_key(&"__metadata__");
    assert!(action.validate_key().is_err());

    action.set_table("__metadata__");
    assert!(action.validate_table().is_err());
}

#[test]
fn validation_error_kinds() {
    let mut action: Action<Settings, UpdateOperation, EntryTarget> = Action::update_entry();
    assert_eq!(
        *action.validate_table().unwrap_err().kind(),
        ActionValidationErrorType::Table
    );
    assert_eq!(
        *action.validate_key().unwrap_err().kind(),
        ActionValidationErrorType::Key
    );
    assert_eq!(
        *action.validate_data().unwrap_err().kind(),
        ActionValidationErrorType::Data
    );
    action.set_key(&"__metadata__");
    assert_eq!(
        *action.validate_key().unwrap_err().kind(),
        ActionValidationErrorType::Metadata
    );
    let entry = Settings {
        id: 3,
        option: true,
        value: 1,
    };
    action.set_entry(&entry);
    assert_eq!(action.key(), Some("3"));
    assert!(action.validate_entry().is_ok());
}
