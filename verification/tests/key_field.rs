use starchart::key_field::{key_field, DeriveShape, FieldShape, KeyFieldError};

fn field(name: &str, has_key_attr: bool) -> FieldShape {
    FieldShape {
        name: name.to_owned(),
        has_key_attr,
    }
}

#[test]
fn key_field_prefers_marked_field() {
    let shape = DeriveShape::Named(vec![
        field("id", false),
        field("name", true),
        field("key", false),
    ]);
    assert_eq!(key_field(&shape), Ok(1));
}

#[test]
fn key_field_takes_first_marked_field() {
    let shape = DeriveShape::Named(vec![
        field("a", false),
        field("b", true),
        field("c", true),
    ]);
    assert_eq!(key_field(&shape), Ok(1));
}

#[test]
fn key_field_falls_back_to_key_name() {
    let shape = DeriveShape::Named(vec![field("name", false), field("key", false)]);
    assert_eq!(key_field(&shape), Ok(1));
}

#[test]
fn key_field_falls_back_to_id_name() {
    let shape = DeriveShape::Named(vec![
        field("name", false),
        field("id", false),
        field("key", false),
    ]);
    assert_eq!(key_field(&shape), Ok(1));
}

#[test]
fn key_field_names_are_exact() {
    let shape = DeriveShape::Named(vec![
        field("ids", false),
        field("Key", false),
        field("k", false),
    ]);
    assert_eq!(key_field(&shape), Err(KeyFieldError::NoKeyField));
}

#[test]
fn key_field_without_fields() {
    assert_eq!(
        key_field(&DeriveShape::Named(Vec::new())),
        Err(KeyFieldError::NoKeyField)
    );
}

#[test]
fn key_field_refuses_other_items() {
    assert_eq!(
        key_field(&DeriveShape::NotStruct),
        Err(KeyFieldError::NotStruct)
    );
    assert_eq!(
        key_field(&DeriveShape::UnnamedFields),
        Err(KeyFieldError::UnnamedFields)
    );
}
