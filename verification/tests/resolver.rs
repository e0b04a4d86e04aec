use asn1_constraints::{
    ASN1Value, ComponentPresence, Constraint, ElementOrSetOperation, ElementSetSpecs,
    GrammarErrorKind, InnerTypeConstraint, IntegerType, NamedConstraint, PatternConstraint,
    RealType, SubtypeElements,
};

fn range_constraint(min: Option<i128>, max: Option<i128>, extensible: bool) -> Constraint {
    Constraint::Subtype(ElementSetSpecs {
        set: ElementOrSetOperation::Element(SubtypeElements::ValueRange {
            min: min.map(ASN1Value::Integer),
            max: max.map(ASN1Value::Integer),
            extensible,
        }),
        extensible: false,
    })
}

fn single_value_constraint(value: i128, extensible: bool) -> Constraint {
    Constraint::Subtype(ElementSetSpecs {
        set: ElementOrSetOperation::Element(SubtypeElements::SingleValue {
            value: ASN1Value::Integer(value),
            extensible,
        }),
        extensible: false,
    })
}

fn named(identifier: &str, constraint: Constraint) -> NamedConstraint {
    NamedConstraint {
        identifier: identifier.to_string(),
        constraints: vec![constraint],
        presence: ComponentPresence::Unspecified,
    }
}

fn real_components_constraint(components: Vec<NamedConstraint>) -> Constraint {
    Constraint::Subtype(ElementSetSpecs {
        set: ElementOrSetOperation::Element(SubtypeElements::MultipleTypeConstraints(
            InnerTypeConstraint {
                is_partial: false,
                constraints: components,
            },
        )),
        extensible: false,
    })
}

fn nr3(mantissa: (i128, i128), base: i128, exponent: (i128, i128)) -> Constraint {
    real_components_constraint(vec![
        named("mantissa", range_constraint(Some(mantissa.0), Some(mantissa.1), false)),
        named("base", single_value_constraint(base, false)),
        named("exponent", range_constraint(Some(exponent.0), Some(exponent.1), false)),
    ])
}

#[test]
fn range_boundaries_select_narrowest_unsigned_type() {
    assert_eq!(range_constraint(Some(0), Some(255), false).integer_constraints(), IntegerType::Uint8);
    assert_eq!(range_constraint(Some(0), Some(256), false).integer_constraints(), IntegerType::Uint16);
    assert_eq!(
        range_constraint(Some(0), Some(4294967295), false).integer_constraints(),
        IntegerType::Uint32
    );
    assert_eq!(
        range_constraint(Some(0), Some(4294967296), false).integer_constraints(),
        IntegerType::Uint64
    );
    assert_eq!(
        range_constraint(Some(0), Some(18446744073709551615), false).integer_constraints(),
        IntegerType::Uint64
    );
    assert_eq!(
        range_constraint(Some(0), Some(18446744073709551616), false).integer_constraints(),
        IntegerType::Unbounded
    );
}

#[test]
fn range_boundaries_select_narrowest_signed_type() {
    assert_eq!(
        range_constraint(Some(-128), Some(127), false).integer_constraints(),
        IntegerType::Int8
    );
    assert_eq!(
        range_constraint(Some(-129), Some(127), false).integer_constraints(),
        IntegerType::Int16
    );
    assert_eq!(
        range_constraint(Some(-32768), Some(32767), false).integer_constraints(),
        IntegerType::Int16
    );
    assert_eq!(
        range_constraint(Some(-2147483649), Some(0), false).integer_constraints(),
        IntegerType::Int64
    );
}

#[test]
fn single_value_selects_narrowest_type() {
    assert_eq!(single_value_constraint(0, false).integer_constraints(), IntegerType::Uint8);
    assert_eq!(single_value_constraint(255, false).integer_constraints(), IntegerType::Uint8);
    assert_eq!(single_value_constraint(256, false).integer_constraints(), IntegerType::Uint16);
    assert_eq!(single_value_constraint(-1, false).integer_constraints(), IntegerType::Int8);
    assert_eq!(single_value_constraint(-32769, false).integer_constraints(), IntegerType::Int32);
}

#[test]
fn extensibility_forces_unbounded() {
    assert_eq!(
        range_constraint(Some(0), Some(255), true).integer_constraints(),
        IntegerType::Unbounded
    );
    assert_eq!(single_value_constraint(7, true).integer_constraints(), IntegerType::Unbounded);
}

#[test]
fn empty_or_contradictory_bounds_force_unbounded() {
    assert_eq!(
        range_constraint(Some(10), Some(5), false).integer_constraints(),
        IntegerType::Unbounded
    );
    assert_eq!(range_constraint(None, None, false).integer_constraints(), IntegerType::Unbounded);
    assert_eq!(range_constraint(None, Some(9), false).integer_constraints(), IntegerType::Unbounded);
    let pattern = Constraint::Subtype(ElementSetSpecs {
        set: ElementOrSetOperation::Element(SubtypeElements::PatternConstraint(
            PatternConstraint::from("[0-9]*"),
        )),
        extensible: false,
    });
    assert_eq!(pattern.integer_constraints(), IntegerType::Unbounded);
}

#[test]
fn end_to_end_byte_range_resolves_to_uint8() {
    let constraint = Constraint::Subtype(ElementSetSpecs {
        set: ElementOrSetOperation::Element(SubtypeElements::ValueRange {
            min: Some(ASN1Value::Integer(0)),
            max: Some(ASN1Value::Integer(255)),
            extensible: false,
        }),
        extensible: false,
    });
    assert_eq!(constraint.integer_constraints(), IntegerType::Uint8);
}

#[test]
fn real_single_precision_envelope_resolves_to_f32() {
    let constraint = nr3((-9999999, 9999999), 2, (-126, 127));
    assert_eq!(constraint.real_constraints(), RealType::F32);
}

#[test]
fn real_double_precision_envelope_resolves_to_f64() {
    let constraint = nr3((-999999999999999, 999999999999999), 2, (-1022, 1023));
    assert_eq!(constraint.real_constraints(), RealType::F64);
}

#[test]
fn real_base_ten_resolves_to_unbounded() {
    let constraint = nr3((-1, 1), 10, (-1, 1));
    assert_eq!(constraint.real_constraints(), RealType::Unbounded);
}

#[test]
fn real_missing_exponent_component_degrades_to_unbounded() {
    let constraint = real_components_constraint(vec![
        named("mantissa", range_constraint(Some(-1), Some(1), false)),
        named("base", single_value_constraint(2, false)),
    ]);
    assert_eq!(constraint.real_constraints(), RealType::Unbounded);
}

#[test]
fn real_wide_exponent_resolves_to_f64() {
    let constraint = nr3((-9999999, 9999999), 2, (-1022, 1023));
    assert_eq!(constraint.real_constraints(), RealType::F64);
}

#[test]
fn real_overflowing_envelope_resolves_to_unbounded() {
    let constraint = nr3((-999999999999999, 999999999999999), 2, (-2000, 2000));
    assert_eq!(constraint.real_constraints(), RealType::Unbounded);
}

#[test]
fn real_malformed_component_degrades_to_unbounded() {
    let open_ended = real_components_constraint(vec![
        named("mantissa", range_constraint(None, Some(9), false)),
        named("base", single_value_constraint(2, false)),
        named("exponent", range_constraint(Some(-1), Some(1), false)),
    ]);
    assert_eq!(open_ended.real_constraints(), RealType::Unbounded);
    let empty = real_components_constraint(vec![NamedConstraint {
        identifier: "mantissa".to_string(),
        constraints: Vec::new(),
        presence: ComponentPresence::Unspecified,
    }]);
    assert_eq!(empty.real_constraints(), RealType::Unbounded);
    assert_eq!(single_value_constraint(2, false).real_constraints(), RealType::Unbounded);
}

#[test]
fn unpack_as_value_range_exposes_range_fields() {
    let constraint = range_constraint(Some(3), Some(9), true);
    let (min, max, extensible) = constraint.unpack_as_value_range().unwrap();
    assert_eq!(min, &Some(ASN1Value::Integer(3)));
    assert_eq!(max, &Some(ASN1Value::Integer(9)));
    assert!(extensible);
}

#[test]
fn unpack_as_value_range_rejects_other_shapes() {
    let err = single_value_constraint(3, false).unpack_as_value_range().unwrap_err();
    assert_eq!(err.kind, GrammarErrorKind::UnpackingError);
}

#[test]
fn unpack_as_strict_value_exposes_value() {
    let constraint = single_value_constraint(42, false);
    let (value, extensible) = constraint.unpack_as_strict_value().unwrap();
    assert_eq!(value, &ASN1Value::Integer(42));
    assert!(!extensible);
}

#[test]
fn unpack_as_strict_value_rejects_other_shapes() {
    let err = range_constraint(Some(0), Some(1), false).unpack_as_strict_value().unwrap_err();
    assert_eq!(err.kind, GrammarErrorKind::UnpackingError);
}

#[test]
fn unwrap_as_integer_distinguishes_integers() {
    assert_eq!(ASN1Value::Integer(-7).unwrap_as_integer().unwrap(), -7);
    let err = ASN1Value::Boolean(true).unwrap_as_integer().unwrap_err();
    assert_eq!(err.kind, GrammarErrorKind::UnpackingError);
}
