//! The data model: the structural description of an annotated type as the
//! host hands it over, the classified field list the extractor produces, and
//! the failure values of the two failure classes (unsupported shape at
//! generation time, missing field at finalize time).

use vstd::prelude::*;

verus! {

/// A raw field of a record definition: the field's identifier and the source
/// text of its declared type, exactly as the host's parsing layer saw it.
#[derive(Debug, Clone)]
pub struct FieldDecl {
    pub name: String,
    pub ty_text: String,
}

/// The shape of an annotated type definition.  Only a record with named
/// fields supports builder generation; the other shapes are rejected.
#[derive(Debug, Clone)]
pub enum TypeData {
    /// A record with exclusively named fields, in declaration order.
    NamedRecord(Vec<FieldDecl>),
    /// A record with positional (tuple) fields.
    PositionalRecord,
    /// A field-less marker (unit) type.
    MarkerUnit,
    /// A sum (enum) type.
    SumType,
    /// A union type.
    UnionType,
}

/// The structural description of one annotated type: its name and its shape.
#[derive(Debug, Clone)]
pub struct TypeDefinition {
    pub name: String,
    pub data: TypeData,
}

/// A classified field: its name, the source text of its declared type, and
/// whether that declared type is itself an absent-or-present wrapper.
#[derive(Debug, Clone)]
pub struct Field {
    pub name: String,
    pub ty_text: String,
    pub optional: bool,
}

/// The generation-time failure class: the annotated type's shape does not
/// support builder generation.  This is fatal for the whole generation pass;
/// the host is expected to abort compilation with the diagnostic.
#[derive(Debug, Clone, Copy, PartialEq, Eq, Structural)]
pub enum ShapeError {
    /// The type is a record, but its fields are positional.
    PositionalFields,
    /// The type is a field-less marker type.
    MarkerType,
    /// The type is a sum type.
    SumType,
    /// The type is a union type.
    UnionType,
}

impl ShapeError {
    /// The fixed diagnostic for the unsupported shape.
    pub fn message(&self) -> (r: String)
        ensures
            r@ == self.message_text(),
    {
        match self {
            ShapeError::PositionalFields => String::from_str(
                "builder generation requires named fields, found a positional-field record",
            ),
            ShapeError::MarkerType => String::from_str(
                "builder generation requires named fields, found a field-less marker type",
            ),
            ShapeError::SumType => String::from_str(
                "builder generation requires named fields, found a sum type",
            ),
            ShapeError::UnionType => String::from_str(
                "builder generation requires named fields, found a union type",
            ),
        }
    }

    /// What [`ShapeError::message`] returns, shape by shape.
    pub open spec fn message_text(self) -> Seq<char> {
        match self {
            ShapeError::PositionalFields => "builder generation requires named fields, found a positional-field record"@,
            ShapeError::MarkerType => "builder generation requires named fields, found a field-less marker type"@,
            ShapeError::SumType => "builder generation requires named fields, found a sum type"@,
            ShapeError::UnionType => "builder generation requires named fields, found a union type"@,
        }
    }
}

} // verus!
