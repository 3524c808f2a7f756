//! Generates, from the normalized shape of a struct declaration, the source
//! text of an implementation of `node_bindgen::core::TryIntoJs`: the
//! conversion of an owned instance of the struct into a value of the
//! JavaScript runtime. A struct with named fields becomes an object with one
//! property for each field, a struct with positional fields an array with
//! one element for each field.
//!
//! The shape comes from a classifier that this library does not hold: it
//! tells named from positional fields, by-value from by-reference field
//! types, and fails on declarations that are no such struct. What the
//! generators emit is stated exactly, as text, in their contracts; `laws`
//! holds what follows for every shape.

pub mod casing;
pub mod fields;
pub mod generator;
pub mod generics;
pub mod laws;
pub mod literal;
pub mod shape;
pub mod text;

pub use generator::{generate_datatype, generate_try_into_js};
