use builder::companion::{BuildError, BuiltRecord, Companion, Value};
use builder::defs::{Field, FieldDecl, TypeData, TypeDefinition};

fn required(name: &str, ty_text: &str) -> Field {
    Field { name: name.to_string(), ty_text: ty_text.to_string(), optional: false }
}

fn optional(name: &str, ty_text: &str) -> Field {
    Field { name: name.to_string(), ty_text: ty_text.to_string(), optional: true }
}

fn command_builder() -> Companion {
    Companion::builder(
        "Command".to_string(),
        vec![required("name", "String"), required("count", "u64")],
    )
}

#[test]
fn builder_yields_all_absent_slots() {
    let c = command_builder();
    assert_eq!(c.slots.len(), 2);
    assert!(c.slots.iter().all(|slot| slot.is_none()));
}

#[test]
fn build_with_all_required_set_succeeds() {
    let mut c = command_builder();
    c.set_field("name", Value::Text("a".to_string()));
    c.set_field("count", Value::Int(5));
    let built = c.build().unwrap();
    let direct = BuiltRecord {
        target: "Command".to_string(),
        values: vec![Some(Value::Text("a".to_string())), Some(Value::Int(5))],
    };
    assert_eq!(built, direct);
}

#[test]
fn setters_in_reverse_order_give_same_result() {
    let mut forward = command_builder();
    forward.set_field("name", Value::Text("a".to_string()));
    forward.set_field("count", Value::Int(5));
    let mut reversed = command_builder();
    reversed.set_field("count", Value::Int(5));
    reversed.set_field("name", Value::Text("a".to_string()));
    assert_eq!(forward.build().unwrap(), reversed.build().unwrap());
}

#[test]
fn second_setter_call_overwrites_first() {
    let mut c = command_builder();
    c.set_field("name", Value::Text("a".to_string()));
    c.set_field("count", Value::Int(5));
    c.set_field("count", Value::Int(7));
    let built = c.build().unwrap();
    assert_eq!(built.values[1], Some(Value::Int(7)));
}

#[test]
fn setter_touches_only_its_own_slot() {
    let mut c = command_builder();
    c.set_field("name", Value::Text("a".to_string()));
    assert_eq!(c.slots[0], Some(Value::Text("a".to_string())));
    assert_eq!(c.slots[1], None);
}

#[test]
fn build_missing_required_field_names_it() {
    let mut c = command_builder();
    c.set_field("name", Value::Text("a".to_string()));
    let err = c.build().unwrap_err();
    assert_eq!(err, BuildError::MissingField("count".to_string()));
    assert_eq!(err.message(), "missing field: count");
}

#[test]
fn failed_build_reports_first_missing_field() {
    let mut c = command_builder();
    let err = c.build().unwrap_err();
    assert_eq!(err, BuildError::MissingField("name".to_string()));
}

#[test]
fn failed_build_leaves_companion_untouched() {
    let mut c = command_builder();
    c.set_field("name", Value::Text("a".to_string()));
    assert!(c.build().is_err());
    assert_eq!(c.slots[0], Some(Value::Text("a".to_string())));
    let mut after = c;
    after.set_field("count", Value::Int(5));
    assert!(after.build().is_ok());
}

#[test]
fn successful_build_consumes_every_slot() {
    let mut c = command_builder();
    c.set_field("name", Value::Text("a".to_string()));
    c.set_field("count", Value::Int(5));
    assert!(c.build().is_ok());
    assert!(c.slots.iter().all(|slot| slot.is_none()));
    let err = c.build().unwrap_err();
    assert_eq!(err, BuildError::MissingField("name".to_string()));
}

#[test]
fn optional_field_left_unset_builds_absent() {
    let mut c = Companion::builder(
        "Record".to_string(),
        vec![required("id", "i64"), optional("note", "Option<String>")],
    );
    c.set_field("id", Value::Int(1));
    let built = c.build().unwrap();
    assert_eq!(built.values, vec![Some(Value::Int(1)), None]);
}

#[test]
fn builder_for_definition_starts_empty() {
    let def = TypeDefinition {
        name: "Command".to_string(),
        data: TypeData::NamedRecord(vec![
            FieldDecl { name: "name".to_string(), ty_text: "String".to_string() },
            FieldDecl { name: "count".to_string(), ty_text: "u64".to_string() },
        ]),
    };
    let c = builder::companion::builder_for(&def).unwrap();
    assert_eq!(c.target, "Command");
    assert_eq!(c.fields.len(), 2);
    assert!(!c.fields[0].optional);
    assert_eq!(c.slots, vec![None, None]);
}

#[test]
fn builder_for_rejects_sum_type() {
    let def = TypeDefinition { name: "Choice".to_string(), data: TypeData::SumType };
    assert!(builder::companion::builder_for(&def).is_err());
}
