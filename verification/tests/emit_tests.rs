use builder::defs::{Field, FieldDecl, ShapeError, TypeData, TypeDefinition};
use builder::emit::{emit_finalizer, generate};

fn decl(name: &str, ty_text: &str) -> FieldDecl {
    FieldDecl { name: name.to_string(), ty_text: ty_text.to_string() }
}

fn command_def() -> TypeDefinition {
    TypeDefinition {
        name: "Command".to_string(),
        data: TypeData::NamedRecord(vec![decl("name", "String"), decl("count", "u64")]),
    }
}

fn joined(lines: &[&str]) -> String {
    let mut out = String::new();
    for line in lines {
        out.push_str(line);
        out.push('\n');
    }
    out
}

#[test]
fn generated_artifact_exact_text() {
    let artifact = generate(&command_def()).unwrap();
    let expected = joined(&[
        "impl Command {",
        "    pub fn builder() -> CommandBuilder {",
        "        CommandBuilder {",
        "            name: None,",
        "            count: None,",
        "        }",
        "    }",
        "}",
        "",
        "struct CommandBuilder {",
        "    name: Option<String>,",
        "    count: Option<u64>,",
        "}",
        "",
        "impl CommandBuilder {",
        "    pub fn build(&mut self) -> Result<Command, String> {",
        "        if self.name.is_none() {",
        "            return Err(\"missing field: name\".to_string());",
        "        }",
        "        if self.count.is_none() {",
        "            return Err(\"missing field: count\".to_string());",
        "        }",
        "        let name = self.name.take().unwrap();",
        "        let count = self.count.take().unwrap();",
        "        Ok(Command {",
        "            name,",
        "            count,",
        "        })",
        "    }",
        "    pub fn name(&mut self, value: String) -> &mut Self {",
        "        self.name = Some(value);",
        "        self",
        "    }",
        "    pub fn count(&mut self, value: u64) -> &mut Self {",
        "        self.count = Some(value);",
        "        self",
        "    }",
        "}",
    ]);
    assert_eq!(artifact, expected);
}

#[test]
fn generation_is_deterministic() {
    let first = generate(&command_def()).unwrap();
    let second = generate(&command_def()).unwrap();
    assert_eq!(first, second);
    assert_eq!(first.as_bytes(), second.as_bytes());
}

#[test]
fn generated_artifact_is_token_well_formed() {
    let artifact = generate(&command_def()).unwrap();
    let parsed = artifact.parse::<proc_macro2::TokenStream>();
    assert!(parsed.is_ok());
}

#[test]
fn optional_field_finalizer_skips_presence_check() {
    let fields = vec![
        Field { name: "id".to_string(), ty_text: "i64".to_string(), optional: false },
        Field { name: "note".to_string(), ty_text: "Option<String>".to_string(), optional: true },
    ];
    let finalizer = emit_finalizer("Record", &fields);
    let expected = joined(&[
        "    pub fn build(&mut self) -> Result<Record, String> {",
        "        if self.id.is_none() {",
        "            return Err(\"missing field: id\".to_string());",
        "        }",
        "        let id = self.id.take().unwrap();",
        "        let note = match self.note.take() { Some(value) => value, None => None };",
        "        Ok(Record {",
        "            id,",
        "            note,",
        "        })",
        "    }",
    ]);
    assert_eq!(finalizer, expected);
}

#[test]
fn generate_rejects_unsupported_shapes() {
    let def = TypeDefinition { name: "Choice".to_string(), data: TypeData::SumType };
    assert_eq!(generate(&def).unwrap_err(), ShapeError::SumType);
    let unit = TypeDefinition { name: "Marker".to_string(), data: TypeData::MarkerUnit };
    assert_eq!(generate(&unit).unwrap_err(), ShapeError::MarkerType);
}
