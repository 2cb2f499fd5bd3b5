use starchart::schema::{schema_kind, MapEntryShape, SchemaKind, SchemaKindError, ValueShape};

fn entry(key: Option<&str>, value: ValueShape) -> MapEntryShape {
    MapEntryShape {
        key: key.map(str::to_owned),
        value,
    }
}

#[test]
fn schema_kind_of_scalars() {
    assert!(matches!(schema_kind(&ValueShape::Bool), Ok(SchemaKind::Bool)));
    assert!(matches!(schema_kind(&ValueShape::U16), Ok(SchemaKind::U16)));
    assert!(matches!(schema_kind(&ValueShape::I64), Ok(SchemaKind::I64)));
    assert!(matches!(schema_kind(&ValueShape::F32), Ok(SchemaKind::F32)));
    assert!(matches!(schema_kind(&ValueShape::Char), Ok(SchemaKind::Char)));
    assert!(matches!(schema_kind(&ValueShape::String), Ok(SchemaKind::String)));
}

#[test]
fn schema_kind_refuses_unit_and_bytes() {
    assert!(matches!(
        schema_kind(&ValueShape::Unit),
        Err(SchemaKindError::UnsupportedValue)
    ));
    assert!(matches!(
        schema_kind(&ValueShape::Bytes),
        Err(SchemaKindError::UnsupportedValue)
    ));
}

#[test]
fn schema_kind_of_options_and_newtypes() {
    assert!(matches!(
        schema_kind(&ValueShape::Option(None)),
        Ok(SchemaKind::Option(inner)) if matches!(*inner, SchemaKind::Any)
    ));
    assert!(matches!(
        schema_kind(&ValueShape::Option(Some(Box::new(ValueShape::U32)))),
        Ok(SchemaKind::Option(inner)) if matches!(*inner, SchemaKind::U32)
    ));
    assert!(matches!(
        schema_kind(&ValueShape::Newtype(Box::new(ValueShape::I8))),
        Ok(SchemaKind::I8)
    ));
}

#[test]
fn schema_kind_of_sequences() {
    assert!(matches!(
        schema_kind(&ValueShape::Sequence(vec![ValueShape::U8])),
        Ok(SchemaKind::Vec(inner)) if matches!(*inner, SchemaKind::U8)
    ));
    assert!(matches!(
        schema_kind(&ValueShape::Sequence(Vec::new())),
        Ok(SchemaKind::Vec(inner)) if matches!(*inner, SchemaKind::Any)
    ));
    // Only a list of one element is looked into.
    assert!(matches!(
        schema_kind(&ValueShape::Sequence(vec![ValueShape::Unit, ValueShape::Unit])),
        Ok(SchemaKind::Vec(inner)) if matches!(*inner, SchemaKind::Any)
    ));
    assert!(matches!(
        schema_kind(&ValueShape::Sequence(vec![ValueShape::Unit])),
        Err(SchemaKindError::UnsupportedValue)
    ));
}

#[test]
fn schema_kind_of_maps() {
    let shape = ValueShape::Mapping(vec![
        entry(Some("id"), ValueShape::U64),
        entry(Some("tags"), ValueShape::Sequence(vec![ValueShape::String])),
    ]);
    match schema_kind(&shape) {
        Ok(SchemaKind::Subfolder(fields)) => {
            assert_eq!(fields.len(), 2);
            assert_eq!(fields[0].name, "id");
            assert!(matches!(fields[0].kind, SchemaKind::U64));
            assert_eq!(fields[1].name, "tags");
            assert!(matches!(&fields[1].kind, SchemaKind::Vec(inner) if matches!(**inner, SchemaKind::String)));
        }
        other => panic!("unexpected {:?}", other),
    }
}

#[test]
fn schema_kind_refuses_bad_maps() {
    let repeated = ValueShape::Mapping(vec![
        entry(Some("a"), ValueShape::Bool),
        entry(Some("a"), ValueShape::U8),
    ]);
    assert!(matches!(
        schema_kind(&repeated),
        Err(SchemaKindError::AlreadyExists(name)) if name == "a"
    ));

    let bad_key = ValueShape::Mapping(vec![
        entry(Some("a"), ValueShape::Bool),
        entry(None, ValueShape::U8),
        entry(Some("b"), ValueShape::Unit),
    ]);
    assert!(matches!(
        schema_kind(&bad_key),
        Err(SchemaKindError::UnsupportedKeyType)
    ));

    let bad_value = ValueShape::Mapping(vec![
        entry(Some("a"), ValueShape::Bytes),
        entry(None, ValueShape::U8),
    ]);
    assert!(matches!(
        schema_kind(&bad_value),
        Err(SchemaKindError::UnsupportedValue)
    ));
}
