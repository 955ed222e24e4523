//! Schema-driven validation and coercion of integer values.
//!
//! A schema is compiled once into a validator, which is then applied to
//! runtime values: it hands back the coerced integer or a structured error
//! naming the single constraint that failed.

pub mod input;
pub mod errors;
pub mod schema;
pub mod int_validators;
pub mod validators;
