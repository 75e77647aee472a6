//! The emitters and the assembler: each derives one fragment of the
//! generated artifact from the field list, as source text, and the assembler
//! concatenates the fragments.  Every fragment repeats one piece of text per
//! field, in field-list order; the spec functions here state each fragment's
//! text exactly, character for character, so the whole artifact is pinned
//! down as a function of the type definition alone.

use vstd::prelude::*;
use crate::defs::{Field, FieldDecl, ShapeError, TypeData, TypeDefinition};
use crate::extract::{classify_spec, extract_fields, extract_spec, shape_error_of};

verus! {

/// The companion type's name: the target type's name with a fixed suffix.
pub open spec fn companion_name(target: Seq<char>) -> Seq<char> {
    target + "Builder"@
}

/// The per-field pieces of text that the fragments repeat: one kind per
/// place a fragment mentions each field.
#[derive(Clone, Copy)]
pub enum PieceKind {
    /// The companion type's slot declaration for the field.
    SlotDecl,
    /// The factory's absent initializer for the field's slot.
    SlotInit,
    /// The field's fluent setter.
    Setter,
    /// The finalizer's presence check (empty for an optional field).
    PresenceCheck,
    /// The finalizer's move of the field's value out of its slot.
    SlotTake,
    /// The field's entry in the finalizer's target-type constructor.
    ResultField,
}

/// The text one field contributes to a fragment of the given kind.
pub open spec fn piece_text(kind: PieceKind, f: Field) -> Seq<char> {
    match kind {
        PieceKind::SlotDecl => "    "@ + f.name@ + ": Option<"@ + f.ty_text@ + ">,\n"@,
        PieceKind::SlotInit => "            "@ + f.name@ + ": None,\n"@,
        PieceKind::Setter => "    pub fn "@ + f.name@ + "(&mut self, value: "@ + f.ty_text@
            + ") -> &mut Self {\n        self."@ + f.name@
            + " = Some(value);\n        self\n    }\n"@,
        PieceKind::PresenceCheck => if f.optional {
            Seq::<char>::empty()
        } else {
            "        if self."@ + f.name@ + ".is_none() {\n            return Err(\"missing field: "@
                + f.name@ + "\".to_string());\n        }\n"@
        },
        PieceKind::SlotTake => if f.optional {
            "        let "@ + f.name@ + " = match self."@ + f.name@
                + ".take() { Some(value) => value, None => None };\n"@
        } else {
            "        let "@ + f.name@ + " = self."@ + f.name@ + ".take().unwrap();\n"@
        },
        PieceKind::ResultField => "            "@ + f.name@ + ",\n"@,
    }
}

/// The pieces of one kind for a whole field list, concatenated in order.
pub open spec fn pieces_text(kind: PieceKind, fs: Seq<Field>) -> Seq<char>
    decreases fs.len(),
{
    if fs.len() == 0 {
        Seq::<char>::empty()
    } else {
        pieces_text(kind, fs.drop_last()) + piece_text(kind, fs.last())
    }
}

/// Extending the emitted prefix by one field appends that field's piece.
pub proof fn lemma_pieces_text_take_step(kind: PieceKind, fs: Seq<Field>, i: int)
    requires
        0 <= i < fs.len(),
    ensures
        pieces_text(kind, fs.take(i + 1)) == pieces_text(kind, fs.take(i)) + piece_text(kind, fs[i]),
{
    assert(fs.take(i + 1).drop_last() =~= fs.take(i));
    assert(fs.take(i + 1).last() == fs[i]);
}

/// The companion type's shape: one slot per field, each the field's declared
/// type wrapped in the absent-or-present container, in field order.
pub open spec fn companion_type_text(target: Seq<char>, fs: Seq<Field>) -> Seq<char> {
    "struct "@ + companion_name(target) + " {\n"@ + pieces_text(PieceKind::SlotDecl, fs) + "}\n"@
}

/// The factory: a `builder()` operation on the target type returning a
/// companion instance with every slot absent.
pub open spec fn factory_text(target: Seq<char>, fs: Seq<Field>) -> Seq<char> {
    "impl "@ + target + " {\n    pub fn builder() -> "@ + companion_name(target) + " {\n        "@
        + companion_name(target) + " {\n"@ + pieces_text(PieceKind::SlotInit, fs)
        + "        }\n    }\n}\n"@
}

/// The setters: one fluent mutator per field, in field order.
pub open spec fn setters_text(fs: Seq<Field>) -> Seq<char> {
    pieces_text(PieceKind::Setter, fs)
}

/// The finalizer: checks every required field's presence in field order
/// before any slot is consumed (so a failed build reports the first missing
/// field and consumes nothing), then moves every value out and constructs
/// the target.
pub open spec fn finalizer_text(target: Seq<char>, fs: Seq<Field>) -> Seq<char> {
    "    pub fn build(&mut self) -> Result<"@ + target + ", String> {\n"@
        + pieces_text(PieceKind::PresenceCheck, fs) + pieces_text(PieceKind::SlotTake, fs)
        + "        Ok("@ + target + " {\n"@ + pieces_text(PieceKind::ResultField, fs)
        + "        })\n    }\n"@
}

/// The whole artifact: factory, companion type, then one implementation
/// block holding the finalizer and the setters.
pub open spec fn artifact_text(target: Seq<char>, fs: Seq<Field>) -> Seq<char> {
    factory_text(target, fs) + "\n"@ + companion_type_text(target, fs) + "\n"@ + "impl "@
        + companion_name(target) + " {\n"@ + finalizer_text(target, fs) + setters_text(fs) + "}\n"@
}

/// Emits the per-field pieces of one kind, in field-list order.
fn emit_pieces(kind: PieceKind, fields: &Vec<Field>, out: &mut String)
    ensures
        final(out)@ == old(out)@ + pieces_text(kind, fields@),
{
    let ghost base: Seq<char> = out@;
    let mut i: usize = 0;
    proof {
        assert(fields@.take(0) =~= Seq::<Field>::empty());
        assert(base + pieces_text(kind, fields@.take(0)) =~= base);
    }
    while i < fields.len()
        invariant
            0 <= i <= fields.len(),
            out@ == base + pieces_text(kind, fields@.take(i as int)),
        decreases fields.len() - i,
    {
        let f = &fields[i];
        match kind {
            PieceKind::SlotDecl => {
                out.append("    ");
                out.append(f.name.as_str());
                out.append(": Option<");
                out.append(f.ty_text.as_str());
                out.append(">,\n");
            }
            PieceKind::SlotInit => {
                out.append("            ");
                out.append(f.name.as_str());
                out.append(": None,\n");
            }
            PieceKind::Setter => {
                out.append("    pub fn ");
                out.append(f.name.as_str());
                out.append("(&mut self, value: ");
                out.append(f.ty_text.as_str());
                out.append(") -> &mut Self {\n        self.");
                out.append(f.name.as_str());
                out.append(" = Some(value);\n        self\n    }\n");
            }
            PieceKind::PresenceCheck => {
                if !f.optional {
                    out.append("        if self.");
                    out.append(f.name.as_str());
                    out.append(".is_none() {\n            return Err(\"missing field: ");
                    out.append(f.name.as_str());
                    out.append("\".to_string());\n        }\n");
                }
            }
            PieceKind::SlotTake => {
                if f.optional {
                    out.append("        let ");
                    out.append(f.name.as_str());
                    out.append(" = match self.");
                    out.append(f.name.as_str());
                    out.append(".take() { Some(value) => value, None => None };\n");
                } else {
                    out.append("        let ");
                    out.append(f.name.as_str());
                    out.append(" = self.");
                    out.append(f.name.as_str());
                    out.append(".take().unwrap();\n");
                }
            }
            PieceKind::ResultField => {
                out.append("            ");
                out.append(f.name.as_str());
                out.append(",\n");
            }
        }
        proof {
            lemma_pieces_text_take_step(kind, fields@, i as int);
            assert(out@ =~= base + pieces_text(kind, fields@.take(i as int + 1)));
        }
        i = i + 1;
    }
    proof {
        assert(fields@.take(fields@.len() as int) =~= fields@);
    }
}

/// Emits the companion type's declaration.
pub fn emit_companion_type(target: &str, fields: &Vec<Field>) -> (r: String)
    ensures
        r@ == companion_type_text(target@, fields@),
{
    let mut out = String::new();
    out.append("struct ");
    out.append(target);
    out.append("Builder");
    out.append(" {\n");
    emit_pieces(PieceKind::SlotDecl, fields, &mut out);
    out.append("}\n");
    proof {
        assert(out@ =~= companion_type_text(target@, fields@));
    }
    out
}

/// Emits the factory operation on the target type.
pub fn emit_factory(target: &str, fields: &Vec<Field>) -> (r: String)
    ensures
        r@ == factory_text(target@, fields@),
{
    let mut out = String::new();
    out.append("impl ");
    out.append(target);
    out.append(" {\n    pub fn builder() -> ");
    out.append(target);
    out.append("Builder");
    out.append(" {\n        ");
    out.append(target);
    out.append("Builder");
    out.append(" {\n");
    emit_pieces(PieceKind::SlotInit, fields, &mut out);
    out.append("        }\n    }\n}\n");
    proof {
        assert(out@ =~= factory_text(target@, fields@));
    }
    out
}

/// Emits the fluent setters, one per field.
pub fn emit_setters(fields: &Vec<Field>) -> (r: String)
    ensures
        r@ == setters_text(fields@),
{
    let mut out = String::new();
    emit_pieces(PieceKind::Setter, fields, &mut out);
    proof {
        assert(out@ =~= setters_text(fields@));
    }
    out
}

/// Emits the finalizer: presence checks first, then the moves, then the
/// target-type construction.
pub fn emit_finalizer(target: &str, fields: &Vec<Field>) -> (r: String)
    ensures
        r@ == finalizer_text(target@, fields@),
{
    let mut out = String::new();
    out.append("    pub fn build(&mut self) -> Result<");
    out.append(target);
    out.append(", String> {\n");
    emit_pieces(PieceKind::PresenceCheck, fields, &mut out);
    emit_pieces(PieceKind::SlotTake, fields, &mut out);
    out.append("        Ok(");
    out.append(target);
    out.append(" {\n");
    emit_pieces(PieceKind::ResultField, fields, &mut out);
    out.append("        })\n    }\n");
    proof {
        assert(out@ =~= finalizer_text(target@, fields@));
    }
    out
}

/// Runs the whole pipeline on one type definition: extracts the field list,
/// emits every fragment, and assembles the artifact.  Succeeds exactly on a
/// record with named fields; every other shape reports its shape error and
/// emits nothing.
pub fn generate(def: &TypeDefinition) -> (r: Result<String, ShapeError>)
    ensures
        r is Ok <==> def.data is NamedRecord,
        def.data matches TypeData::NamedRecord(decls) ==> r matches Ok(out) && out@
            == artifact_text(def.name@, extract_spec(decls@)),
        !(def.data is NamedRecord) ==> r == Result::<String, ShapeError>::Err(
            shape_error_of(def.data),
        ),
{
    let fields = match extract_fields(def) {
        Ok(fields) => fields,
        Err(e) => {
            return Err(e);
        }
    };
    let target = def.name.as_str();
    let mut out = emit_factory(target, &fields);
    out.append("\n");
    let companion = emit_companion_type(target, &fields);
    out.append(companion.as_str());
    out.append("\n");
    out.append("impl ");
    out.append(target);
    out.append("Builder");
    out.append(" {\n");
    let finalizer = emit_finalizer(target, &fields);
    out.append(finalizer.as_str());
    let setters = emit_setters(&fields);
    out.append(setters.as_str());
    out.append("}\n");
    proof {
        assert(out@ =~= artifact_text(def.name@, fields@));
    }
    Ok(out)
}

/// Two fields alike in text: same name, same declared-type text, same
/// optionality.
pub open spec fn field_like(f1: Field, f2: Field) -> bool {
    f1.name@ == f2.name@ && f1.ty_text@ == f2.ty_text@ && f1.optional == f2.optional
}

/// Two raw field declarations alike in text.
pub open spec fn decl_like(d1: FieldDecl, d2: FieldDecl) -> bool {
    d1.name@ == d2.name@ && d1.ty_text@ == d2.ty_text@
}

/// A fragment's per-field text depends only on the fields' text: field
/// lists alike character for character emit the same pieces.
pub proof fn lemma_pieces_text_congruent(kind: PieceKind, fs1: Seq<Field>, fs2: Seq<Field>)
    requires
        fs1.len() == fs2.len(),
        forall|i: int| 0 <= i < fs1.len() ==> field_like(fs1[i], fs2[i]),
    ensures
        pieces_text(kind, fs1) == pieces_text(kind, fs2),
    decreases fs1.len(),
{
    if fs1.len() > 0 {
        assert(forall|i: int|
            0 <= i < fs1.drop_last().len() ==> field_like(fs1.drop_last()[i], fs2.drop_last()[i]));
        lemma_pieces_text_congruent(kind, fs1.drop_last(), fs2.drop_last());
        assert(field_like(fs1.last(), fs2.last()));
    }
}

/// Generation is deterministic: the artifact text is a function of the type
/// definition's text alone.  Two named-record definitions with the same
/// name and the same field declarations, character for character, yield
/// identical artifact text — and `generate`'s contract pins every run's
/// output to that text, so identical input always produces byte-identical
/// output.
pub proof fn lemma_generation_deterministic(d1: TypeDefinition, d2: TypeDefinition)
    requires
        d1.name@ == d2.name@,
        d1.data is NamedRecord,
        d2.data is NamedRecord,
        (d1.data->NamedRecord_0)@.len() == (d2.data->NamedRecord_0)@.len(),
        forall|i: int|
            0 <= i < (d1.data->NamedRecord_0)@.len() ==> decl_like(
                (d1.data->NamedRecord_0)@[i],
                (d2.data->NamedRecord_0)@[i],
            ),
    ensures
        artifact_text(d1.name@, extract_spec((d1.data->NamedRecord_0)@)) == artifact_text(
            d2.name@,
            extract_spec((d2.data->NamedRecord_0)@),
        ),
{
    let decls1 = (d1.data->NamedRecord_0)@;
    let decls2 = (d2.data->NamedRecord_0)@;
    let fs1 = extract_spec(decls1);
    let fs2 = extract_spec(decls2);
    assert(forall|i: int| 0 <= i < fs1.len() ==> field_like(fs1[i], fs2[i])) by {
        assert(forall|i: int| 0 <= i < decls1.len() ==> fs1[i] == classify_spec(decls1[i]));
        assert(forall|i: int| 0 <= i < decls2.len() ==> fs2[i] == classify_spec(decls2[i]));
    }
    lemma_pieces_text_congruent(PieceKind::SlotDecl, fs1, fs2);
    lemma_pieces_text_congruent(PieceKind::SlotInit, fs1, fs2);
    lemma_pieces_text_congruent(PieceKind::Setter, fs1, fs2);
    lemma_pieces_text_congruent(PieceKind::PresenceCheck, fs1, fs2);
    lemma_pieces_text_congruent(PieceKind::SlotTake, fs1, fs2);
    lemma_pieces_text_congruent(PieceKind::ResultField, fs1, fs2);
}

} // verus!
