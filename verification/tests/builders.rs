use asn1_constraints::{
    ASN1Value, CompositeConstraint, Constraint, ElementOrSetOperation, ElementSetSpecs,
    ExtensionMarker, ObjectSet, OptionalMarker, PatternConstraint, RangeSeperator,
    RelationalConstraint, SetOperation, SetOperator, SubtypeElements, TableConstraint,
    UserDefinedConstraint, ValueConstraint,
};
use asn1_constraints::text::{parse_usize_str, str_eq, str_starts_with, usize_to_dec_string};

fn byte_range_specs() -> ElementSetSpecs {
    ElementSetSpecs {
        set: ElementOrSetOperation::Element(SubtypeElements::ValueRange {
            min: Some(ASN1Value::Integer(0)),
            max: Some(ASN1Value::Integer(255)),
            extensible: false,
        }),
        extensible: false,
    }
}

#[test]
fn single_value_builder_collapses_range() {
    let vc = ValueConstraint::from(ASN1Value::Integer(4));
    assert_eq!(vc.min_value, Some(ASN1Value::Integer(4)));
    assert_eq!(vc.max_value, Some(ASN1Value::Integer(4)));
    assert!(!vc.extensible);
}

#[test]
fn single_value_builder_with_marker_is_extensible() {
    let vc = ValueConstraint::from((ASN1Value::Integer(4), ExtensionMarker()));
    assert_eq!(vc.min_value, Some(ASN1Value::Integer(4)));
    assert_eq!(vc.max_value, Some(ASN1Value::Integer(4)));
    assert!(vc.extensible);
}

#[test]
fn range_builder_keeps_distinct_endpoints() {
    let vc = ValueConstraint::from((
        ASN1Value::Integer(-3),
        RangeSeperator(),
        ASN1Value::Integer(9),
    ));
    assert_eq!(vc.min_value, Some(ASN1Value::Integer(-3)));
    assert_eq!(vc.max_value, Some(ASN1Value::Integer(9)));
    assert!(!vc.extensible);
}

#[test]
fn range_builder_with_marker_is_extensible() {
    let vc = ValueConstraint::from((
        ASN1Value::Integer(-3),
        RangeSeperator(),
        ASN1Value::Integer(9),
        ExtensionMarker(),
    ));
    assert_eq!(vc.min_value, Some(ASN1Value::Integer(-3)));
    assert_eq!(vc.max_value, Some(ASN1Value::Integer(9)));
    assert!(vc.extensible);
}

#[test]
fn optional_marker_builder_ignores_its_text() {
    assert_eq!(OptionalMarker::from("OPTIONAL"), OptionalMarker());
}

#[test]
fn composite_builder_boxes_terms_in_order() {
    let composite = CompositeConstraint::from((
        Constraint::Subtype(byte_range_specs()),
        vec![
            (SetOperator::Union, Constraint::Parameter(Vec::new())),
            (SetOperator::Except, Constraint::Subtype(byte_range_specs())),
        ],
        Some(ExtensionMarker()),
    ));
    assert_eq!(*composite.base_constraint, Constraint::Subtype(byte_range_specs()));
    assert_eq!(composite.operation.len(), 2);
    assert_eq!(composite.operation[0].0, SetOperator::Union);
    assert_eq!(*composite.operation[0].1, Constraint::Parameter(Vec::new()));
    assert_eq!(composite.operation[1].0, SetOperator::Except);
    assert_eq!(*composite.operation[1].1, Constraint::Subtype(byte_range_specs()));
    assert!(composite.extensible);
}

#[test]
fn composite_builder_without_marker_is_not_extensible() {
    let composite = CompositeConstraint::from((
        Constraint::Subtype(byte_range_specs()),
        Vec::new(),
        None,
    ));
    assert!(composite.operation.is_empty());
    assert!(!composite.extensible);
}

#[test]
fn table_builder_defaults_missing_linked_fields() {
    let set = ObjectSet { identifier: "Protocols".to_string() };
    let tc = TableConstraint::from((set, None));
    assert_eq!(tc.object_set.identifier, "Protocols");
    assert!(tc.linked_fields.is_empty());
}

#[test]
fn table_builder_keeps_given_linked_fields() {
    let set = ObjectSet { identifier: "Protocols".to_string() };
    let fields = vec![RelationalConstraint::from((0, "id"))];
    let tc = TableConstraint::from((set, Some(fields)));
    assert_eq!(tc.linked_fields.len(), 1);
    assert_eq!(tc.linked_fields[0].field_name, "id");
    assert_eq!(tc.linked_fields[0].level, 0);
}

#[test]
fn relational_builder_keeps_level_and_name() {
    let rc = RelationalConstraint::from((2, "kind"));
    assert_eq!(rc.field_name, "kind");
    assert_eq!(rc.level, 2);
}

#[test]
fn pattern_and_user_defined_builders_wrap_their_text() {
    assert_eq!(PatternConstraint::from("[ab]+").pattern, "[ab]+");
    assert_eq!(UserDefinedConstraint::from("CONSTRAINED BY x").definition, "CONSTRAINED BY x");
}

#[test]
fn subtype_element_builders() {
    let single = SubtypeElements::from((ASN1Value::Integer(1), Some(ExtensionMarker())));
    assert_eq!(
        single,
        SubtypeElements::SingleValue { value: ASN1Value::Integer(1), extensible: true }
    );
    let multi = SubtypeElements::from((None, Vec::new()));
    match multi {
        SubtypeElements::MultipleTypeConstraints(inner) => {
            assert!(!inner.is_partial);
            assert!(inner.constraints.is_empty());
        }
        other => panic!("unexpected element: {:?}", other),
    }
    let size = SubtypeElements::from_constraint(Constraint::Subtype(byte_range_specs()));
    match size {
        SubtypeElements::SizeConstraint(inner) => {
            assert_eq!(*inner, byte_range_specs().set);
        }
        other => panic!("unexpected element: {:?}", other),
    }
}

#[test]
fn element_set_specs_builder_records_extensibility() {
    let specs = ElementSetSpecs::from((
        ElementOrSetOperation::Element(SubtypeElements::SingleValue {
            value: ASN1Value::Integer(1),
            extensible: false,
        }),
        Some(ExtensionMarker()),
    ));
    assert!(specs.extensible);
    let plain = ElementSetSpecs::from((
        ElementOrSetOperation::Element(SubtypeElements::SingleValue {
            value: ASN1Value::Integer(1),
            extensible: false,
        }),
        None,
    ));
    assert!(!plain.extensible);
}

#[test]
fn set_operation_builder_boxes_its_operand() {
    let base = SubtypeElements::SingleValue { value: ASN1Value::Integer(1), extensible: false };
    let operand = ElementOrSetOperation::Element(SubtypeElements::SingleValue {
        value: ASN1Value::Integer(2),
        extensible: false,
    });
    let op = SetOperation::from((base, SetOperator::Intersection, operand));
    assert_eq!(op.operator, SetOperator::Intersection);
    assert_eq!(
        op.base,
        SubtypeElements::SingleValue { value: ASN1Value::Integer(1), extensible: false }
    );
    assert_eq!(
        *op.operant,
        ElementOrSetOperation::Element(SubtypeElements::SingleValue {
            value: ASN1Value::Integer(2),
            extensible: false,
        })
    );
}

#[test]
fn decimal_rendering_is_canonical() {
    assert_eq!(usize_to_dec_string(0), "0");
    assert_eq!(usize_to_dec_string(7), "7");
    assert_eq!(usize_to_dec_string(98765), "98765");
}

#[test]
fn decimal_parsing_accepts_exactly_usize_syntax() {
    assert_eq!(parse_usize_str("123"), Some(123));
    assert_eq!(parse_usize_str("+7"), Some(7));
    assert_eq!(parse_usize_str("007"), Some(7));
    assert_eq!(parse_usize_str(""), None);
    assert_eq!(parse_usize_str("+"), None);
    assert_eq!(parse_usize_str("12a"), None);
    assert_eq!(parse_usize_str("-3"), None);
    assert_eq!(parse_usize_str("99999999999999999999999999999"), None);
}

#[test]
fn string_helpers_compare_by_characters() {
    assert!(str_eq("abc", "abc"));
    assert!(!str_eq("abc", "abd"));
    assert!(!str_eq("abc", "ab"));
    assert!(str_starts_with("mantissa", "man"));
    assert!(!str_starts_with("man", "mantissa"));
    assert!(str_starts_with("man", ""));
}
