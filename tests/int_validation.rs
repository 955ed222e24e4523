use validator_core::errors::{ConstraintKey, ErrorContext, ErrorKind, SchemaError};
use validator_core::input::{parse_i64, validate_int, InputValue};
use validator_core::int_validators::{FullIntValidator, IntConstraints, SimpleIntValidator};
use validator_core::schema::{Schema, SchemaValue};
use validator_core::validators::{build_validator, CombinedValidator};

fn int_schema(constraints: &[(&str, i64)]) -> Schema {
    let mut s = Schema::new();
    s.set_item("type", SchemaValue::Str("int".to_string()));
    for (k, v) in constraints {
        s.set_item(k, SchemaValue::Int(*v));
    }
    s
}

fn compile(constraints: &[(&str, i64)]) -> CombinedValidator {
    build_validator(&int_schema(constraints)).expect("schema compiles")
}

fn failure(v: &CombinedValidator, input: InputValue) -> (ErrorKind, Option<ErrorContext>) {
    let e = v.validate(input).expect_err("validation fails");
    (e.kind, e.context)
}

#[test]
fn plain_int_accepts_five() {
    let v = compile(&[]);
    assert_eq!(v.validate(InputValue::Int(5)).unwrap(), 5);
}

#[test]
fn le_accepts_bound_itself() {
    let v = compile(&[("le", 10)]);
    assert_eq!(v.validate(InputValue::Int(10)).unwrap(), 10);
}

#[test]
fn le_rejects_above_bound() {
    let v = compile(&[("le", 10)]);
    let e = v.validate(InputValue::Int(11)).unwrap_err();
    assert_eq!(e.kind, ErrorKind::IntLessThanEqual);
    assert_eq!(e.context, Some(ErrorContext::LessThanEqual { le: 10 }));
    assert!(matches!(e.input, InputValue::Int(11)));
}

#[test]
fn multiple_of_rejects_seven() {
    let v = compile(&[("multiple_of", 5)]);
    assert_eq!(
        failure(&v, InputValue::Int(7)),
        (ErrorKind::IntMultiple, Some(ErrorContext::MultipleOf { multiple_of: 5 }))
    );
    assert_eq!(v.validate(InputValue::Int(10)).unwrap(), 10);
    assert_eq!(v.validate(InputValue::Int(-15)).unwrap(), -15);
}

#[test]
fn ge_reported_for_negative_under_range() {
    let v = compile(&[("ge", 0), ("le", 10)]);
    assert_eq!(
        failure(&v, InputValue::Int(-3)),
        (ErrorKind::IntGreaterThanEqual, Some(ErrorContext::GreaterThanEqual { ge: 0 }))
    );
}

#[test]
fn text_that_is_no_number_fails_coercion() {
    let v = compile(&[]);
    let e = v.validate(InputValue::Str("not a number".to_string())).unwrap_err();
    assert_eq!(e.kind, ErrorKind::TypeCoercionFailed);
    assert_eq!(e.context, None);
    assert!(matches!(e.input, InputValue::Str(ref s) if s == "not a number"));
}

#[test]
fn constrained_validator_also_fails_coercion() {
    let v = compile(&[("gt", 0)]);
    assert_eq!(failure(&v, InputValue::Null), (ErrorKind::TypeCoercionFailed, None));
}

#[test]
fn unconstrained_schema_selects_simple() {
    assert!(matches!(compile(&[]), CombinedValidator::SimpleInt(_)));
    let mut s = int_schema(&[]);
    s.set_item("title", SchemaValue::Str("age".to_string()));
    assert!(matches!(build_validator(&s), Ok(CombinedValidator::SimpleInt(_))));
}

#[test]
fn each_constraint_key_selects_full() {
    for key in ["multiple_of", "le", "lt", "ge", "gt"] {
        match compile(&[(key, 3)]) {
            CombinedValidator::FullInt(f) => {
                let c = f.constraints();
                let got = [c.multiple_of, c.le, c.lt, c.ge, c.gt];
                assert_eq!(got.iter().filter(|x| x.is_some()).count(), 1);
            }
            CombinedValidator::SimpleInt(_) => panic!("{} picked the unconstrained validator", key),
        }
    }
}

#[test]
fn single_bounds_decide_success() {
    let lt = compile(&[("lt", 4)]);
    assert_eq!(lt.validate(InputValue::Int(3)).unwrap(), 3);
    assert_eq!(
        failure(&lt, InputValue::Int(4)),
        (ErrorKind::IntLessThan, Some(ErrorContext::LessThan { lt: 4 }))
    );
    let ge = compile(&[("ge", 4)]);
    assert_eq!(ge.validate(InputValue::Int(4)).unwrap(), 4);
    assert_eq!(failure(&ge, InputValue::Int(3)).0, ErrorKind::IntGreaterThanEqual);
    let gt = compile(&[("gt", 4)]);
    assert_eq!(gt.validate(InputValue::Int(5)).unwrap(), 5);
    assert_eq!(
        failure(&gt, InputValue::Int(4)),
        (ErrorKind::IntGreaterThan, Some(ErrorContext::GreaterThan { gt: 4 }))
    );
}

#[test]
fn first_violated_check_is_reported() {
    let v = compile(&[("multiple_of", 2), ("le", 10), ("lt", 5), ("ge", 20), ("gt", 30)]);
    assert_eq!(failure(&v, InputValue::Int(11)).0, ErrorKind::IntMultiple);
    assert_eq!(failure(&v, InputValue::Int(12)).0, ErrorKind::IntLessThanEqual);
    assert_eq!(failure(&v, InputValue::Int(6)).0, ErrorKind::IntLessThan);
    assert_eq!(failure(&v, InputValue::Int(4)).0, ErrorKind::IntGreaterThanEqual);
}

#[test]
fn duplicate_validates_alike() {
    let v = compile(&[("multiple_of", 3), ("lt", 10)]);
    let d = v.clone_dyn();
    for i in [-9i64, -1, 0, 3, 7, 9, 10, 12] {
        let a = v.validate(InputValue::Int(i)).map_err(|e| (e.kind, e.context));
        let b = d.validate(InputValue::Int(i)).map_err(|e| (e.kind, e.context));
        assert_eq!(a, b);
    }
    let s = compile(&[]).clone_dyn();
    assert!(matches!(s, CombinedValidator::SimpleInt(_)));
}

#[test]
fn revalidation_gives_same_value() {
    let v = compile(&[("ge", 1)]);
    let first = v.validate(InputValue::Str("+42".to_string())).unwrap();
    assert_eq!(first, 42);
    assert_eq!(v.validate(InputValue::Int(first)).unwrap(), 42);
    let b = v.validate(InputValue::Bool(true)).unwrap();
    assert_eq!(v.validate(InputValue::Int(b)).unwrap(), 1);
}

#[test]
fn coercion_reads_bools_and_text() {
    assert_eq!(validate_int(&InputValue::Bool(false)), Some(0));
    assert_eq!(validate_int(&InputValue::Bool(true)), Some(1));
    assert_eq!(validate_int(&InputValue::Str("-17".to_string())), Some(-17));
    assert_eq!(validate_int(&InputValue::Null), None);
    assert_eq!(validate_int(&InputValue::Other { host_type: "list".to_string() }), None);
}

#[test]
fn parse_handles_signs_and_limits() {
    assert_eq!(parse_i64("0"), Some(0));
    assert_eq!(parse_i64("007"), Some(7));
    assert_eq!(parse_i64("9223372036854775807"), Some(i64::MAX));
    assert_eq!(parse_i64("-9223372036854775808"), Some(i64::MIN));
    assert_eq!(parse_i64("9223372036854775808"), None);
    assert_eq!(parse_i64("-9223372036854775809"), None);
    assert_eq!(parse_i64("99999999999999999999999"), None);
    assert_eq!(parse_i64(""), None);
    assert_eq!(parse_i64("-"), None);
    assert_eq!(parse_i64("+"), None);
    assert_eq!(parse_i64("1.5"), None);
    assert_eq!(parse_i64(" 1"), None);
    assert_eq!(parse_i64("--1"), None);
}

#[test]
fn minimum_is_a_multiple_of_minus_one() {
    let v = compile(&[("multiple_of", -1)]);
    assert_eq!(v.validate(InputValue::Int(i64::MIN)).unwrap(), i64::MIN);
    let w = compile(&[("multiple_of", i64::MIN)]);
    assert_eq!(w.validate(InputValue::Int(i64::MIN)).unwrap(), i64::MIN);
    assert_eq!(failure(&w, InputValue::Int(i64::MAX)).0, ErrorKind::IntMultiple);
}

#[test]
fn schema_errors_are_reported() {
    assert!(matches!(build_validator(&Schema::new()), Err(SchemaError::MissingType)));
    let mut s = Schema::new();
    s.set_item("type", SchemaValue::Int(1));
    assert!(matches!(build_validator(&s), Err(SchemaError::TypeNotString)));
    let mut s = Schema::new();
    s.set_item("type", SchemaValue::Str("str".to_string()));
    s.set_item("le", SchemaValue::Int(1));
    assert!(matches!(build_validator(&s), Err(SchemaError::UnknownType { type_ }) if type_ == "str"));
    let mut s = int_schema(&[("le", 1)]);
    s.set_item("lt", SchemaValue::Str("x".to_string()));
    s.set_item("gt", SchemaValue::Bool(true));
    assert!(matches!(
        build_validator(&s),
        Err(SchemaError::InvalidConstraint { key: ConstraintKey::Lt })
    ));
    let mut s = int_schema(&[]);
    s.set_item("ge", SchemaValue::Other { host_type: "float".to_string() });
    assert!(matches!(
        build_validator(&s),
        Err(SchemaError::InvalidConstraint { key: ConstraintKey::Ge })
    ));
    let mut s = Schema::new();
    s.set_item("type", SchemaValue::Other { host_type: "float".to_string() });
    assert!(matches!(build_validator(&s), Err(SchemaError::TypeNotString)));
    let mut s = int_schema(&[]);
    s.set_item("multiple_of", SchemaValue::Str("5".to_string()));
    assert!(matches!(
        build_validator(&s),
        Err(SchemaError::InvalidConstraint { key: ConstraintKey::MultipleOf })
    ));
}

#[test]
fn zero_divisor_accepts_only_zero() {
    let f = FullIntValidator::build(&int_schema(&[("multiple_of", 0)])).unwrap();
    assert_eq!(f.constraints().multiple_of, Some(0));
    let v = compile(&[("multiple_of", 0)]);
    assert_eq!(v.validate(InputValue::Int(0)).unwrap(), 0);
    assert_eq!(
        failure(&v, InputValue::Int(5)),
        (ErrorKind::IntMultiple, Some(ErrorContext::MultipleOf { multiple_of: 0 }))
    );
    assert_eq!(failure(&v, InputValue::Int(i64::MIN)).0, ErrorKind::IntMultiple);
}

#[test]
fn schema_later_value_replaces_earlier() {
    let mut s = int_schema(&[("le", 1)]);
    s.set_item("le", SchemaValue::Int(100));
    assert!(s.contains_key("le"));
    assert!(!s.contains_key("lt"));
    assert_eq!(s.get_int("le"), Some(Some(100)));
    assert_eq!(s.get_int("ge"), Some(None));
    assert_eq!(s.get_int("type"), None);
    let v = build_validator(&s).unwrap();
    assert_eq!(v.validate(InputValue::Int(50)).unwrap(), 50);
}

#[test]
fn variants_match_as_stated() {
    let plain = int_schema(&[]);
    let bounded = int_schema(&[("gt", 0)]);
    assert!(SimpleIntValidator::is_match("int", &plain));
    assert!(!SimpleIntValidator::is_match("int", &bounded));
    assert!(!SimpleIntValidator::is_match("integer", &plain));
    assert!(FullIntValidator::is_match("int", &plain));
    assert!(FullIntValidator::is_match("int", &bounded));
    assert!(!FullIntValidator::is_match("in", &bounded));
    let f = FullIntValidator::build(&bounded).unwrap();
    assert_eq!(
        f.constraints(),
        IntConstraints { multiple_of: None, le: None, lt: None, ge: None, gt: Some(0) }
    );
    assert!(SimpleIntValidator::build(&bounded).is_ok());
    let s = SimpleIntValidator;
    assert_eq!(s.validate(InputValue::Str("12".to_string())).unwrap(), 12);
    assert_eq!(f.validate(InputValue::Int(0)).unwrap_err().kind, ErrorKind::IntGreaterThan);
}
