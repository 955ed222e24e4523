//! The two integer validators: an unconstrained fast path and a validator
//! that checks bounds and divisibility.

use vstd::prelude::*;
use crate::errors::{ConstraintKey, ErrorContext, ErrorKind, SchemaError, ValError};
use crate::input::{coerce_int, validate_int, InputValue};
use crate::schema::{int_field, int_field_ok, Schema};
use crate::validators::CombinedValidator;

verus! {

/// The optional bounds of a constrained integer validator; `None` sets no
/// limit on that axis.
#[derive(Debug, Clone, Copy, PartialEq, Eq, Structural)]
pub struct IntConstraints {
    pub multiple_of: Option<i64>,
    pub le: Option<i64>,
    pub lt: Option<i64>,
    pub ge: Option<i64>,
    pub gt: Option<i64>,
}

/// Whether the schema sets any of the five integer constraint keys.
pub open spec fn has_constraint_key(m: Map<Seq<char>, crate::schema::SchemaValue>) -> bool {
    ||| m.contains_key("multiple_of"@)
    ||| m.contains_key("le"@)
    ||| m.contains_key("lt"@)
    ||| m.contains_key("ge"@)
    ||| m.contains_key("gt"@)
}

/// The constraints that a schema sets, each read as an integer field.
pub open spec fn constraints_of(m: Map<Seq<char>, crate::schema::SchemaValue>) -> IntConstraints {
    IntConstraints {
        multiple_of: int_field(m, "multiple_of"@),
        le: int_field(m, "le"@),
        lt: int_field(m, "lt"@),
        ge: int_field(m, "ge"@),
        gt: int_field(m, "gt"@),
    }
}

/// The first constraint key, in the order multiple_of, le, lt, ge, gt, whose
/// value is not an integer.
pub open spec fn first_bad_constraint(m: Map<Seq<char>, crate::schema::SchemaValue>) -> Option<
    ConstraintKey,
> {
    if !int_field_ok(m, "multiple_of"@) {
        Some(ConstraintKey::MultipleOf)
    } else if !int_field_ok(m, "le"@) {
        Some(ConstraintKey::Le)
    } else if !int_field_ok(m, "lt"@) {
        Some(ConstraintKey::Lt)
    } else if !int_field_ok(m, "ge"@) {
        Some(ConstraintKey::Ge)
    } else if !int_field_ok(m, "gt"@) {
        Some(ConstraintKey::Gt)
    } else {
        None
    }
}

/// Whether `v` is not a multiple of the divisor; the only multiple of zero
/// is zero itself.
pub open spec fn violates_multiple_of(c: IntConstraints, v: i64) -> bool {
    match c.multiple_of {
        Some(m) => if m == 0 {
            v != 0
        } else {
            (v as int) % (m as int) != 0
        },
        None => false,
    }
}

pub open spec fn violates_le(c: IntConstraints, v: i64) -> bool {
    match c.le {
        Some(le) => v > le,
        None => false,
    }
}

pub open spec fn violates_lt(c: IntConstraints, v: i64) -> bool {
    match c.lt {
        Some(lt) => v >= lt,
        None => false,
    }
}

pub open spec fn violates_ge(c: IntConstraints, v: i64) -> bool {
    match c.ge {
        Some(ge) => v < ge,
        None => false,
    }
}

pub open spec fn violates_gt(c: IntConstraints, v: i64) -> bool {
    match c.gt {
        Some(gt) => v <= gt,
        None => false,
    }
}

/// The first check that `v` fails, in the fixed order multiple_of, le, lt,
/// ge, gt, with the bound it names.
pub open spec fn first_violation(c: IntConstraints, v: i64) -> Option<(ErrorKind, ErrorContext)> {
    if violates_multiple_of(c, v) {
        Some((ErrorKind::IntMultiple, ErrorContext::MultipleOf { multiple_of: c.multiple_of->0 }))
    } else if violates_le(c, v) {
        Some((ErrorKind::IntLessThanEqual, ErrorContext::LessThanEqual { le: c.le->0 }))
    } else if violates_lt(c, v) {
        Some((ErrorKind::IntLessThan, ErrorContext::LessThan { lt: c.lt->0 }))
    } else if violates_ge(c, v) {
        Some((ErrorKind::IntGreaterThanEqual, ErrorContext::GreaterThanEqual { ge: c.ge->0 }))
    } else if violates_gt(c, v) {
        Some((ErrorKind::IntGreaterThan, ErrorContext::GreaterThan { gt: c.gt->0 }))
    } else {
        None
    }
}

/// The failure reported for an input without an integer reading.
pub open spec fn coercion_error(input: InputValue) -> ValError {
    ValError { kind: ErrorKind::TypeCoercionFailed, context: None, input }
}

/// The outcome of the unconstrained validator: the integer reading, if any.
pub open spec fn simple_int_outcome(input: InputValue) -> Result<i64, ValError> {
    match coerce_int(input) {
        Some(v) => Ok(v),
        None => Err(coercion_error(input)),
    }
}

/// The outcome of the constrained validator: the integer reading, checked
/// against the constraints, reporting the first violated one.
pub open spec fn full_int_outcome(c: IntConstraints, input: InputValue) -> Result<i64, ValError> {
    match coerce_int(input) {
        None => Err(coercion_error(input)),
        Some(v) => match first_violation(c, v) {
            Some((kind, context)) => Err(ValError { kind, context: Some(context), input }),
            None => Ok(v),
        },
    }
}

/// Whether two strings hold the same characters.
fn same_text(a: &str, b: &str) -> (r: bool)
    ensures
        r == (a@ == b@),
{
    let n = a.unicode_len();
    if n != b.unicode_len() {
        return false;
    }
    let mut i: usize = 0;
    while i < n
        invariant
            i <= n,
            n == a@.len(),
            n == b@.len(),
            forall|j: int| 0 <= j < i ==> a@[j] == b@[j],
        decreases n - i,
    {
        if a.get_char(i) != b.get_char(i) {
            return false;
        }
        i = i + 1;
    }
    proof {
        assert(a@ =~= b@);
    }
    true
}

/// Whether `type_` names the integer type.
fn is_int_type(type_: &str) -> (r: bool)
    ensures
        r == (type_@ == "int"@),
{
    same_text(type_, "int")
}

/// Validator for integers with no constraints.
#[derive(Debug, Clone, Copy)]
pub struct SimpleIntValidator;

impl SimpleIntValidator {
    /// Handles integer schemas that set none of the constraint keys.
    pub fn is_match(type_: &str, schema: &Schema) -> (r: bool)
        ensures
            r == (type_@ == "int"@ && !has_constraint_key(schema@)),
    {
        is_int_type(type_) && !schema.contains_key("multiple_of") && !schema.contains_key("le")
            && !schema.contains_key("lt") && !schema.contains_key("ge")
            && !schema.contains_key("gt")
    }

    /// Builds the validator; it holds no state, so this cannot fail.
    pub fn build(_schema: &Schema) -> (r: Result<SimpleIntValidator, SchemaError>)
        ensures
            r is Ok,
    {
        Ok(SimpleIntValidator)
    }

    /// The integer reading of `input`, or a coercion failure.
    pub fn validate(&self, input: InputValue) -> (r: Result<i64, ValError>)
        ensures
            r == simple_int_outcome(input),
    {
        match validate_int(&input) {
            Some(v) => Ok(v),
            None => Err(ValError { kind: ErrorKind::TypeCoercionFailed, context: None, input }),
        }
    }

    /// An independent copy of this validator.
    pub fn clone_dyn(&self) -> (r: CombinedValidator)
        ensures
            r == CombinedValidator::SimpleInt(*self),
    {
        CombinedValidator::SimpleInt(SimpleIntValidator)
    }
}

/// Validator for integers under optional bounds and divisibility.
#[derive(Debug, Clone, Copy)]
pub struct FullIntValidator {
    constraints: IntConstraints,
}

impl View for FullIntValidator {
    type V = IntConstraints;

    closed spec fn view(&self) -> IntConstraints {
        self.constraints
    }
}

impl FullIntValidator {
    /// Handles every integer schema, constrained or not.
    pub fn is_match(type_: &str, schema: &Schema) -> (r: bool)
        ensures
            r == (type_@ == "int"@),
    {
        is_int_type(type_)
    }

    /// Reads the five constraint fields; a field that holds no integer is
    /// reported by its key, the first in the order multiple_of, le, lt, ge,
    /// gt.
    pub fn build(schema: &Schema) -> (r: Result<FullIntValidator, SchemaError>)
        ensures
            match r {
                Ok(v) => first_bad_constraint(schema@) is None && v@ == constraints_of(schema@),
                Err(e) => first_bad_constraint(schema@) matches Some(k) && e
                    == SchemaError::InvalidConstraint { key: k },
            },
    {
        let multiple_of = match schema.get_int("multiple_of") {
            Some(v) => v,
            None => return Err(SchemaError::InvalidConstraint { key: ConstraintKey::MultipleOf }),
        };
        let le = match schema.get_int("le") {
            Some(v) => v,
            None => return Err(SchemaError::InvalidConstraint { key: ConstraintKey::Le }),
        };
        let lt = match schema.get_int("lt") {
            Some(v) => v,
            None => return Err(SchemaError::InvalidConstraint { key: ConstraintKey::Lt }),
        };
        let ge = match schema.get_int("ge") {
            Some(v) => v,
            None => return Err(SchemaError::InvalidConstraint { key: ConstraintKey::Ge }),
        };
        let gt = match schema.get_int("gt") {
            Some(v) => v,
            None => return Err(SchemaError::InvalidConstraint { key: ConstraintKey::Gt }),
        };
        Ok(FullIntValidator { constraints: IntConstraints { multiple_of, le, lt, ge, gt } })
    }

    /// The constraints this validator checks.
    pub fn constraints(&self) -> (r: IntConstraints)
        ensures
            r == self@,
    {
        self.constraints
    }

    /// Coerces `input` to an integer and checks it against the constraints in
    /// the order multiple_of, le, lt, ge, gt, stopping at the first failure.
    pub fn validate(&self, input: InputValue) -> (r: Result<i64, ValError>)
        ensures
            r == full_int_outcome(self@, input),
    {
        let value = match validate_int(&input) {
            Some(v) => v,
            None => {
                return Err(ValError { kind: ErrorKind::TypeCoercionFailed, context: None, input });
            },
        };
        if let Some(multiple_of) = self.constraints.multiple_of {
            let divides = match value.checked_rem_euclid(multiple_of) {
                Some(rem) => rem == 0,
                None => if multiple_of == 0 {
                    value == 0
                } else {
                    // only i64::MIN by -1, which divides it
                    assert((value as int) % (multiple_of as int) == 0) by (nonlinear_arith)
                        requires
                            multiple_of == -1,
                    ;
                    true
                },
            };
            if !divides {
                return Err(
                    ValError {
                        kind: ErrorKind::IntMultiple,
                        context: Some(ErrorContext::MultipleOf { multiple_of }),
                        input,
                    },
                );
            }
        }
        if let Some(le) = self.constraints.le {
            if value > le {
                return Err(
                    ValError {
                        kind: ErrorKind::IntLessThanEqual,
                        context: Some(ErrorContext::LessThanEqual { le }),
                        input,
                    },
                );
            }
        }
        if let Some(lt) = self.constraints.lt {
            if value >= lt {
                return Err(
                    ValError {
                        kind: ErrorKind::IntLessThan,
                        context: Some(ErrorContext::LessThan { lt }),
                        input,
                    },
                );
            }
        }
        if let Some(ge) = self.constraints.ge {
            if value < ge {
                return Err(
                    ValError {
                        kind: ErrorKind::IntGreaterThanEqual,
                        context: Some(ErrorContext::GreaterThanEqual { ge }),
                        input,
                    },
                );
            }
        }
        if let Some(gt) = self.constraints.gt {
            if value <= gt {
                return Err(
                    ValError {
                        kind: ErrorKind::IntGreaterThan,
                        context: Some(ErrorContext::GreaterThan { gt }),
                        input,
                    },
                );
            }
        }
        Ok(value)
    }

    /// An independent copy of this validator.
    pub fn clone_dyn(&self) -> (r: CombinedValidator)
        ensures
            r matches CombinedValidator::FullInt(c) && c@ == self@,
    {
        CombinedValidator::FullInt(FullIntValidator { constraints: self.constraints })
    }
}

} // verus!
