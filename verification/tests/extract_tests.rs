use builder::defs::{FieldDecl, ShapeError, TypeData, TypeDefinition};
use builder::extract::{extract_fields, is_optional_type_text};

fn decl(name: &str, ty_text: &str) -> FieldDecl {
    FieldDecl { name: name.to_string(), ty_text: ty_text.to_string() }
}

fn def_with(data: TypeData) -> TypeDefinition {
    TypeDefinition { name: "Sample".to_string(), data }
}

#[test]
fn option_type_text_is_detected() {
    assert!(is_optional_type_text("Option<String>"));
    assert!(is_optional_type_text("Option < String >"));
    assert!(!is_optional_type_text("String"));
    assert!(!is_optional_type_text("Opt"));
    assert!(!is_optional_type_text(""));
}

#[test]
fn extract_classifies_optional_fields() {
    let def = def_with(TypeData::NamedRecord(vec![
        decl("id", "i64"),
        decl("note", "Option<String>"),
    ]));
    let fields = extract_fields(&def).unwrap();
    assert!(!fields[0].optional);
    assert!(fields[1].optional);
}

#[test]
fn extract_preserves_field_order_and_text() {
    let def = def_with(TypeData::NamedRecord(vec![
        decl("name", "String"),
        decl("count", "u64"),
        decl("note", "Option<String>"),
    ]));
    let fields = extract_fields(&def).unwrap();
    let names: Vec<&str> = fields.iter().map(|f| f.name.as_str()).collect();
    assert_eq!(names, vec!["name", "count", "note"]);
    let types: Vec<&str> = fields.iter().map(|f| f.ty_text.as_str()).collect();
    assert_eq!(types, vec!["String", "u64", "Option<String>"]);
}

#[test]
fn extract_accepts_empty_named_record() {
    let def = def_with(TypeData::NamedRecord(vec![]));
    assert_eq!(extract_fields(&def).unwrap().len(), 0);
}

#[test]
fn positional_record_is_rejected() {
    let def = def_with(TypeData::PositionalRecord);
    assert_eq!(extract_fields(&def).unwrap_err(), ShapeError::PositionalFields);
}

#[test]
fn marker_type_is_rejected() {
    let def = def_with(TypeData::MarkerUnit);
    assert_eq!(extract_fields(&def).unwrap_err(), ShapeError::MarkerType);
}

#[test]
fn sum_type_is_rejected() {
    let def = def_with(TypeData::SumType);
    assert_eq!(extract_fields(&def).unwrap_err(), ShapeError::SumType);
}

#[test]
fn union_type_is_rejected() {
    let def = def_with(TypeData::UnionType);
    assert_eq!(extract_fields(&def).unwrap_err(), ShapeError::UnionType);
}

#[test]
fn shape_error_messages_name_the_shape() {
    assert_eq!(
        ShapeError::PositionalFields.message(),
        "builder generation requires named fields, found a positional-field record",
    );
    assert_eq!(
        ShapeError::MarkerType.message(),
        "builder generation requires named fields, found a field-less marker type",
    );
    assert_eq!(
        ShapeError::SumType.message(),
        "builder generation requires named fields, found a sum type",
    );
    assert_eq!(
        ShapeError::UnionType.message(),
        "builder generation requires named fields, found a union type",
    );
}
