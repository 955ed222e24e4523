//! Validation failures and schema configuration errors.

use vstd::prelude::*;
use crate::input::InputValue;

verus! {

/// Which rule a value failed; one kind per distinct rule.
#[derive(Debug, Clone, Copy, PartialEq, Eq, Structural)]
pub enum ErrorKind {
    TypeCoercionFailed,
    IntMultiple,
    IntLessThanEqual,
    IntLessThan,
    IntGreaterThanEqual,
    IntGreaterThan,
}

/// The violated bound and its value.
#[derive(Debug, Clone, Copy, PartialEq, Eq, Structural)]
pub enum ErrorContext {
    MultipleOf { multiple_of: i64 },
    LessThanEqual { le: i64 },
    LessThan { lt: i64 },
    GreaterThanEqual { ge: i64 },
    GreaterThan { gt: i64 },
}

/// A failed validation: the rule, the bound it named (if any) and the input
/// as it was handed in.
#[derive(Debug, Clone)]
pub struct ValError {
    pub kind: ErrorKind,
    pub context: Option<ErrorContext>,
    pub input: InputValue,
}

/// Why a schema could not be compiled into a validator.
#[derive(Debug, Clone)]
pub enum SchemaError {
    /// The schema has no `type` key.
    MissingType,
    /// The `type` key holds something other than a string.
    TypeNotString,
    /// No validator handles the declared type.
    UnknownType { type_: String },
    /// A constraint key holds a value of the wrong shape.
    InvalidConstraint { key: ConstraintKey },
}

/// The constraint keys that an integer schema may set.
#[derive(Debug, Clone, Copy, PartialEq, Eq, Structural)]
pub enum ConstraintKey {
    MultipleOf,
    Le,
    Lt,
    Ge,
    Gt,
}

} // verus!
