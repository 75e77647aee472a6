//! The field extractor: reads a type definition, rejects unsupported shapes,
//! and produces the ordered, classified field list that every emitter and the
//! companion consume.  A field counts as optional exactly when the source
//! text of its declared type starts with the absent-or-present wrapper's
//! name, `Option`.

use vstd::prelude::*;
use crate::defs::{Field, FieldDecl, ShapeError, TypeData, TypeDefinition};

verus! {

/// Whether a declared type's source text names the absent-or-present
/// wrapper: it has `Option` as its first six characters.
pub open spec fn is_option_prefix(s: Seq<char>) -> bool {
    s.len() >= 6 && s.subrange(0, 6) == "Option"@
}

/// Classifies a declared type's source text as optional or required.
pub fn is_optional_type_text(ty_text: &str) -> (r: bool)
    ensures
        r == is_option_prefix(ty_text@),
{
    proof {
        reveal_strlit("Option");
    }
    let pattern = "Option";
    if ty_text.unicode_len() < 6 {
        return false;
    }
    let mut i: usize = 0;
    while i < 6
        invariant
            0 <= i <= 6,
            ty_text@.len() >= 6,
            pattern@ == "Option"@,
            pattern@.len() == 6,
            forall|k: int| 0 <= k < i ==> ty_text@[k] == pattern@[k],
        decreases 6 - i,
    {
        if ty_text.get_char(i) != pattern.get_char(i) {
            proof {
                assert(ty_text@.subrange(0, 6) != "Option"@) by {
                    assert(ty_text@.subrange(0, 6)[i as int] != "Option"@[i as int]);
                }
            }
            return false;
        }
        i = i + 1;
    }
    proof {
        assert(ty_text@.subrange(0, 6) =~= "Option"@);
    }
    true
}

/// The classification of one raw field: the name and type text carried over,
/// the optionality read off the type text.
pub open spec fn classify_spec(d: FieldDecl) -> Field {
    Field { name: d.name, ty_text: d.ty_text, optional: is_option_prefix(d.ty_text@) }
}

/// The field list a named record's declarations extract to, in order.
pub open spec fn extract_spec(decls: Seq<FieldDecl>) -> Seq<Field> {
    decls.map_values(|d: FieldDecl| classify_spec(d))
}

/// The shape error each unsupported shape is reported as.  A named record
/// has no shape error.
pub open spec fn shape_error_of(data: TypeData) -> ShapeError {
    match data {
        // a named record is never reported; the value here is never consulted
        TypeData::NamedRecord(_) => ShapeError::PositionalFields,
        TypeData::PositionalRecord => ShapeError::PositionalFields,
        TypeData::MarkerUnit => ShapeError::MarkerType,
        TypeData::SumType => ShapeError::SumType,
        TypeData::UnionType => ShapeError::UnionType,
    }
}

/// Extracts the ordered field list from a type definition.
///
/// Succeeds exactly on a record with named fields; every other shape is a
/// generation-time failure reporting that shape.  Field order is preserved,
/// and each field's optionality is read off its declared type's text.
pub fn extract_fields(def: &TypeDefinition) -> (r: Result<Vec<Field>, ShapeError>)
    ensures
        r is Ok <==> def.data is NamedRecord,
        def.data matches TypeData::NamedRecord(decls) ==> r matches Ok(fs) && fs@ == extract_spec(decls@),
        !(def.data is NamedRecord) ==> r == Result::<Vec<Field>, ShapeError>::Err(shape_error_of(def.data)),
{
    match &def.data {
        TypeData::NamedRecord(decls) => {
            let mut fields: Vec<Field> = Vec::new();
            let mut i: usize = 0;
            while i < decls.len()
                invariant
                    0 <= i <= decls.len(),
                    fields@.len() == i,
                    forall|k: int| 0 <= k < i ==> fields@[k] == classify_spec(decls@[k]),
                decreases decls.len() - i,
            {
                let d = &decls[i];
                let optional = is_optional_type_text(d.ty_text.as_str());
                fields.push(Field { name: d.name.clone(), ty_text: d.ty_text.clone(), optional });
                i = i + 1;
            }
            proof {
                assert(fields@ =~= extract_spec(decls@));
            }
            Ok(fields)
        }
        TypeData::PositionalRecord => Err(ShapeError::PositionalFields),
        TypeData::MarkerUnit => Err(ShapeError::MarkerType),
        TypeData::SumType => Err(ShapeError::SumType),
        TypeData::UnionType => Err(ShapeError::UnionType),
    }
}

} // verus!
