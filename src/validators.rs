//! Selection of a validator for a schema, and the validators as one type.
//!
//! Candidates are tried in a fixed order and the first that matches is built.
//! The unconstrained integer validator comes before the constrained one: the
//! latter accepts every integer schema, so in the other order the former
//! would never be chosen.

use vstd::prelude::*;
use crate::errors::{ErrorKind, SchemaError, ValError};
use crate::input::InputValue;
use crate::int_validators::{
    constraints_of, first_bad_constraint, full_int_outcome, has_constraint_key,
    simple_int_outcome, violates_ge, violates_gt, violates_le, violates_lt, violates_multiple_of,
    FullIntValidator, IntConstraints, SimpleIntValidator,
};
use crate::schema::{int_field, Schema, SchemaValue};

verus! {

/// A compiled validator, one variant per validator kind.
#[derive(Debug, Clone, Copy)]
pub enum CombinedValidator {
    SimpleInt(SimpleIntValidator),
    FullInt(FullIntValidator),
}

/// What a compiled validator is: its kind and the constraints it holds.
#[derive(Debug, Clone, Copy, PartialEq, Eq, Structural)]
pub enum ValidatorModel {
    SimpleInt,
    FullInt(IntConstraints),
}

impl View for CombinedValidator {
    type V = ValidatorModel;

    open spec fn view(&self) -> ValidatorModel {
        match self {
            CombinedValidator::SimpleInt(_) => ValidatorModel::SimpleInt,
            CombinedValidator::FullInt(v) => ValidatorModel::FullInt(v@),
        }
    }
}

/// The outcome of applying a validator to an input.
pub open spec fn validator_outcome(v: ValidatorModel, input: InputValue) -> Result<i64, ValError> {
    match v {
        ValidatorModel::SimpleInt => simple_int_outcome(input),
        ValidatorModel::FullInt(c) => full_int_outcome(c, input),
    }
}

/// The validator that a schema compiles to: the first candidate whose match
/// accepts the schema's declared type, built from the schema.
pub open spec fn select_validator(m: Map<Seq<char>, SchemaValue>) -> Result<
    ValidatorModel,
    SchemaError,
> {
    if !m.contains_key("type"@) {
        Err(SchemaError::MissingType)
    } else {
        match m["type"@] {
            SchemaValue::Str(t) => if t@ == "int"@ && !has_constraint_key(m) {
                Ok(ValidatorModel::SimpleInt)
            } else if t@ == "int"@ {
                match first_bad_constraint(m) {
                    Some(key) => Err(SchemaError::InvalidConstraint { key }),
                    None => Ok(ValidatorModel::FullInt(constraints_of(m))),
                }
            } else {
                Err(SchemaError::UnknownType { type_: t })
            },
            _ => Err(SchemaError::TypeNotString),
        }
    }
}

/// Compiles a schema into a validator, trying the candidates in order.
pub fn build_validator(schema: &Schema) -> (r: Result<CombinedValidator, SchemaError>)
    ensures
        match r {
            Ok(v) => select_validator(schema@) == Ok::<ValidatorModel, SchemaError>(v@),
            Err(e) => select_validator(schema@) == Err::<ValidatorModel, SchemaError>(e),
        },
{
    let type_ = match schema.get_item("type") {
        None => return Err(SchemaError::MissingType),
        Some(SchemaValue::Str(t)) => t,
        Some(_) => return Err(SchemaError::TypeNotString),
    };
    if SimpleIntValidator::is_match(type_.as_str(), schema) {
        match SimpleIntValidator::build(schema) {
            Ok(v) => Ok(CombinedValidator::SimpleInt(v)),
            Err(e) => Err(e),
        }
    } else if FullIntValidator::is_match(type_.as_str(), schema) {
        match FullIntValidator::build(schema) {
            Ok(v) => Ok(CombinedValidator::FullInt(v)),
            Err(e) => Err(e),
        }
    } else {
        Err(SchemaError::UnknownType { type_: type_.clone() })
    }
}

impl CombinedValidator {
    /// Applies the validator to one input.
    pub fn validate(&self, input: InputValue) -> (r: Result<i64, ValError>)
        ensures
            r == validator_outcome(self@, input),
    {
        match self {
            CombinedValidator::SimpleInt(v) => v.validate(input),
            CombinedValidator::FullInt(v) => v.validate(input),
        }
    }

    /// An independent copy of the validator, for use at another place.
    pub fn clone_dyn(&self) -> (r: CombinedValidator)
        ensures
            r@ == self@,
    {
        match self {
            CombinedValidator::SimpleInt(v) => v.clone_dyn(),
            CombinedValidator::FullInt(v) => v.clone_dyn(),
        }
    }
}

/// Whether schema `m` declares the string type `"int"`.
pub open spec fn declares_int(m: Map<Seq<char>, SchemaValue>) -> bool {
    m.contains_key("type"@) && (m["type"@] matches SchemaValue::Str(t) && t@ == "int"@)
}

/// An integer schema that sets no constraint key compiles to the
/// unconstrained validator.
pub proof fn lemma_unconstrained_schema_selects_simple(schema: Schema)
    requires
        declares_int(schema@),
        !has_constraint_key(schema@),
    ensures
        select_validator(schema@) == Ok::<ValidatorModel, SchemaError>(ValidatorModel::SimpleInt),
{
}

/// An integer schema that sets a constraint key compiles to the constrained
/// validator, holding the schema's constraints, unless one of them is
/// malformed.
pub proof fn lemma_constrained_schema_selects_full(schema: Schema)
    requires
        declares_int(schema@),
        has_constraint_key(schema@),
    ensures
        first_bad_constraint(schema@) is None ==> select_validator(schema@) == Ok::<
            ValidatorModel,
            SchemaError,
        >(ValidatorModel::FullInt(constraints_of(schema@))),
        first_bad_constraint(schema@) matches Some(key) ==> select_validator(schema@) == Err::<
            ValidatorModel,
            SchemaError,
        >(SchemaError::InvalidConstraint { key }),
{
}

/// On an integer schema, an integer passes exactly when it meets every bound
/// the schema sets, and it then comes back unchanged.
pub proof fn lemma_bounds_decide_success(schema: Schema, v: i64)
    requires
        declares_int(schema@),
        first_bad_constraint(schema@) is None,
    ensures
        ({
            let m = schema@;
            let out = validator_outcome(select_validator(m)->Ok_0, InputValue::Int(v));
            &&& select_validator(m) is Ok
            &&& (out is Ok <==> {
                &&& (int_field(m, "multiple_of"@) matches Some(d) ==> (if d == 0 {
                    v == 0
                } else {
                    (v as int) % (d as int) == 0
                }))
                &&& (int_field(m, "le"@) matches Some(le) ==> v <= le)
                &&& (int_field(m, "lt"@) matches Some(lt) ==> v < lt)
                &&& (int_field(m, "ge"@) matches Some(ge) ==> v >= ge)
                &&& (int_field(m, "gt"@) matches Some(gt) ==> v > gt)
            })
            &&& (out is Ok ==> out == Ok::<i64, ValError>(v))
        }),
{
}

/// Whether `v` fails the check that reports `kind`.
pub open spec fn violates(c: IntConstraints, kind: ErrorKind, v: i64) -> bool {
    match kind {
        ErrorKind::IntMultiple => violates_multiple_of(c, v),
        ErrorKind::IntLessThanEqual => violates_le(c, v),
        ErrorKind::IntLessThan => violates_lt(c, v),
        ErrorKind::IntGreaterThanEqual => violates_ge(c, v),
        ErrorKind::IntGreaterThan => violates_gt(c, v),
        ErrorKind::TypeCoercionFailed => false,
    }
}

/// The position of a constraint check in the checking order.
pub open spec fn check_rank(kind: ErrorKind) -> int {
    match kind {
        ErrorKind::IntMultiple => 0,
        ErrorKind::IntLessThanEqual => 1,
        ErrorKind::IntLessThan => 2,
        ErrorKind::IntGreaterThanEqual => 3,
        ErrorKind::IntGreaterThan => 4,
        ErrorKind::TypeCoercionFailed => -1,
    }
}

/// When an integer violates several bounds, the failure reported is for the
/// first violated check in the order multiple_of, le, lt, ge, gt; when it
/// violates none, it passes.
pub proof fn lemma_first_violation_reported(c: IntConstraints, v: i64, kind: ErrorKind)
    ensures
        ({
            let out = full_int_outcome(c, InputValue::Int(v));
            &&& violates(c, kind, v) ==> (out matches Err(e) && violates(c, e.kind, v)
                && check_rank(e.kind) <= check_rank(kind))
            &&& out matches Err(e) ==> violates(c, e.kind, v)
        }),
{
}

/// A copy made by `clone_dyn` validates every input exactly as the original.
pub proof fn lemma_duplicate_validates_alike(
    original: CombinedValidator,
    copy: CombinedValidator,
    input: InputValue,
)
    requires
        copy@ == original@,
    ensures
        validator_outcome(copy@, input) == validator_outcome(original@, input),
{
}

/// Validating the value a validator produced gives that value again.
pub proof fn lemma_revalidation_idempotent(v: ValidatorModel, input: InputValue, r: i64)
    requires
        validator_outcome(v, input) == Ok::<i64, ValError>(r),
    ensures
        validator_outcome(v, InputValue::Int(r)) == Ok::<i64, ValError>(r),
{
}

} // verus!
