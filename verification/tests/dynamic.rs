use std::str::FromStr;

use starchart::action::{
    ActionField, ActionFields, ActionKind, ActionValidationErrorType, DynamicAction, EntryTarget,
    FieldError, ReadOperation, TableTarget, TargetKind,
};
use starchart::IndexEntry;

#[derive(Debug, Default, Clone, PartialEq)]
struct Profile {
    id: u32,
    name: String,
}

impl IndexEntry for Profile {
    type Key = u32;

    fn key(&self) -> u32 {
        self.id
    }
}

#[test]
fn dynamic_text_round_trip() {
    let mut action = DynamicAction::<Profile>::new(ActionKind::Update, TargetKind::Entry);
    action.set_table("people".to_owned());
    let text = action.to_string();
    assert_eq!(text, "Update.Entry.people");
    let parsed = DynamicAction::<Profile>::from_str(&text).unwrap();
    assert_eq!(parsed.kind(), ActionKind::Update);
    assert_eq!(parsed.target(), TargetKind::Entry);
    assert_eq!(parsed.table(), Some("people"));
    assert!(parsed.key().is_none());

    let bare = DynamicAction::<Profile>::new(ActionKind::Read, TargetKind::Table);
    assert_eq!(bare.to_string(), "Read.Table");
    let parsed = DynamicAction::<Profile>::from_str("Read.Table").unwrap();
    assert!(parsed.table().is_none());
}

#[test]
fn dynamic_parse_errors() {
    for bad in ["", "Read", "Read.Table.a.b", "Reed.Table", "Read.Tables", "read.table"] {
        let err = DynamicAction::<Profile>::from_str(bad).unwrap_err();
        assert_eq!(*err.kind(), ActionValidationErrorType::Parse, "{}", bad);
    }
}

#[test]
fn dynamic_setters_and_validation() {
    let mut action = DynamicAction::<Profile>::new(ActionKind::Create, TargetKind::Entry);
    assert!(action.validate_key().is_err());
    assert!(action.validate_table().is_err());
    assert!(action.validate_data().is_err());
    action.set_entry(Profile { id: 12, name: "x".to_owned() });
    assert_eq!(action.key(), Some("12"));
    assert_eq!(action.data().map(|p| p.id), Some(12));
    assert!(action.validate_entry().is_ok());
    action.set_table("__metadata__".to_owned());
    assert_eq!(
        *action.validate_table().unwrap_err().kind(),
        ActionValidationErrorType::Metadata
    );
    action.set_key(&"__metadata__");
    assert!(action.validate_key().is_err());
    action.set_kind(ActionKind::Read).set_target(TargetKind::Table);
    assert_eq!((action.kind(), action.target()), (ActionKind::Read, TargetKind::Table));
}

#[test]
fn dynamic_as_static() {
    let mut action = DynamicAction::<Profile>::new(ActionKind::Read, TargetKind::Entry);
    action.set_table("t".to_owned()).set_key(&5_u32);
    let stat = action.as_static::<ReadOperation, EntryTarget>().unwrap();
    assert_eq!(stat.table(), Some("t"));
    assert_eq!(stat.key(), Some("5"));
    let err = action.as_static::<ReadOperation, TableTarget>().unwrap_err();
    assert_eq!(*err.kind(), ActionValidationErrorType::Conversion);
}

#[test]
fn dynamic_fields_collect() {
    let mut fields = ActionFields::new();
    assert!(!fields.has(ActionField::Type));
    fields.set_kind(ActionKind::Delete).unwrap();
    assert_eq!(
        fields.set_kind(ActionKind::Read),
        Err(FieldError::Duplicate(ActionField::Type))
    );
    fields.set_target(TargetKind::Table).unwrap();
    assert!(matches!(
        ActionFields::new().finish::<Profile>(),
        Err(FieldError::Missing(ActionField::Type))
    ));
    let mut partial = ActionFields::new();
    partial.set_kind(ActionKind::Read).unwrap();
    assert!(matches!(
        partial.finish::<Profile>(),
        Err(FieldError::Missing(ActionField::Target))
    ));
    let mut no_table = ActionFields::new();
    no_table.set_kind(ActionKind::Read).unwrap();
    no_table.set_target(TargetKind::Entry).unwrap();
    assert!(matches!(
        no_table.finish::<Profile>(),
        Err(FieldError::Missing(ActionField::Table))
    ));
    fields.set_table(Some("t".to_owned())).unwrap();
    assert_eq!(
        fields.set_table(None),
        Err(FieldError::Duplicate(ActionField::Table))
    );
    let action = fields.finish::<Profile>().unwrap();
    assert_eq!(action.to_string(), "Delete.Table.t");
    assert_eq!(ActionField::from_name("target"), Some(ActionField::Target));
    assert_eq!(ActionField::from_name("other"), None);
    assert_eq!(ActionField::Table.name(), "table");
    assert_eq!(ActionField::Table.index(), 2);
}
