//! Derivation of `std::hash::Hash` implementations for structs whose fields
//! carry per-field hashing directives: `#[hash_with = "path"]`,
//! `#[hash_with(expression)]` and `#[hash_without]`.
pub mod model;
pub mod syntax;
pub mod engine;
pub mod derive;
pub mod laws;

pub use derive::{derive_hash_with, describe};
pub use engine::{directive_of, expand, generate, resolve_field};
pub use model::{
    AttrDesc, DeriveError, FieldDesc, Generated, MetaShape, Shape, Statement, Strategy, TypeDesc,
};
