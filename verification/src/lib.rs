//! Compile-time builder generation for flat record types.
//!
//! Given the structural description of a record type (a name and an ordered
//! list of named, typed fields), this crate derives a companion "builder"
//! type: a factory that creates an empty companion, one fluent setter per
//! field, and a finalize operation that checks completeness and materializes
//! the target type.  The crate both emits the companion as source text
//! ([`emit`]) and models the companion's behaviour directly ([`companion`]),
//! so the finalize policy is stated and proved once.

pub mod companion;
pub mod defs;
pub mod emit;
pub mod extract;
