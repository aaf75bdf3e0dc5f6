//! A type-erasure layer for exportable data payloads.
//!
//! A concrete payload — a named record of scalar fields together with the
//! type-identity token its producer assigned to it — is upcast once into a
//! shared, reference-counted erased container.  The container can be cloned,
//! compared, hashed, serialized through any caller-supplied structural
//! serializer, rendered as a source-level literal, and measured, all without
//! the concrete type being named again.


pub mod value;
pub mod error;
pub mod serializer;
pub mod decimal;
pub mod wire;
pub mod json;
pub mod bake;
pub mod hash;
pub mod payload;
pub mod laws;
