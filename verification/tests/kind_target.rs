use std::str::FromStr;

use starchart::action::{ActionKind, TargetKind};

#[test]
fn kind_default() {
    assert_eq!(ActionKind::default(), ActionKind::Read);
}

#[test]
fn kind_display() {
    assert_eq!(ActionKind::Create.to_string(), "Create");
    assert_eq!(ActionKind::Read.to_string(), "Read");
    assert_eq!(ActionKind::Update.to_string(), "Update");
    assert_eq!(ActionKind::Delete.to_string(), "Delete");
}

#[test]
fn target_default() {
    assert_eq!(TargetKind::default(), TargetKind::Entry);
}

#[test]
fn target_display() {
    assert_eq!(TargetKind::Entry.to_string(), "Entry");
    assert_eq!(TargetKind::Table.to_string(), "Table");
}

#[test]
fn kind_name_round_trip() {
    for kind in [ActionKind::Create, ActionKind::Read, ActionKind::Update, ActionKind::Delete] {
        assert_eq!(ActionKind::from_str(&kind.to_string()).unwrap(), kind);
    }
    assert!(ActionKind::from_str("create").is_err());
    assert!(ActionKind::from_str("").is_err());
}

#[test]
fn target_name_round_trip() {
    for target in [TargetKind::Entry, TargetKind::Table] {
        assert_eq!(TargetKind::from_str(&target.to_string()).unwrap(), target);
    }
    assert!(TargetKind::from_str("Entity").is_err());
}
