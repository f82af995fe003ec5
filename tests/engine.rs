use utoipa_validate::{
    conforms, derive_validatable, validate_with, AlwaysValidValidator, Constraint, DerivationErrorKind,
    ExclusiveMaximumValidator, ExclusiveMinimumValidator, FieldDecl, FieldType, IntKind, Literal,
    MaxItemsValidator, MaxLengthValidator, MaximumValidator, MinItemsValidator,
    MinLengthValidator, MinimumValidator, MultipleOfValidator, OptionValidator, PatternValidator,
    TypeDecl, Validatable, ValidationError, ValidationErrorCategory, ValidationPath, Validator,
    Value, VariantDecl, VecValidator,
};

fn bound(name: &str, value: i128) -> Constraint {
    Constraint { name: name.to_owned(), value: Literal::Int(value) }
}

fn text(name: &str, value: &str) -> Constraint {
    Constraint { name: name.to_owned(), value: Literal::Text(value.to_owned()) }
}

fn named(name: &str, ty: FieldType, constraints: Vec<Constraint>) -> FieldDecl {
    FieldDecl { name: Some(name.to_owned()), ty, constraints }
}

fn positional(ty: FieldType, constraints: Vec<Constraint>) -> FieldDecl {
    FieldDecl { name: None, ty, constraints }
}

fn error(category: ValidationErrorCategory, path: &str, actual: &str, expected: &str) -> ValidationError {
    ValidationError {
        category,
        path: path.to_owned(),
        actual: actual.to_owned(),
        expected: expected.to_owned(),
    }
}

fn int32() -> FieldType {
    FieldType::Integer(IntKind::I32)
}

#[test]
fn path_rendering() {
    let root = ValidationPath::Root;
    assert_eq!(root.to_string(), "");
    let a = ValidationPath::Field { parent: &root, name: "a" };
    assert_eq!(a.to_string(), "a");
    let b = ValidationPath::Field { parent: &a, name: "b" };
    assert_eq!(b.to_string(), "a.b");
    let item = ValidationPath::Item { parent: &root, index: 2 };
    assert_eq!(item.to_string(), "[2]");
    let a0 = ValidationPath::Item { parent: &a, index: 0 };
    assert_eq!(a0.to_string(), "a[0]");
    let deep = ValidationPath::Field { parent: &a0, name: "c" };
    assert_eq!(deep.to_string(), "a[0].c");
    let twelve = ValidationPath::Item { parent: &deep, index: 12 };
    assert_eq!(twelve.to_string(), "a[0].c[12]");
}

#[test]
fn boundaries_inclusive_and_exclusive() {
    assert!(validate_with(&3i32, &MinimumValidator::new(3i32)).is_ok());
    assert!(validate_with(&2i32, &MinimumValidator::new(3i32)).is_err());
    assert!(validate_with(&3i32, &ExclusiveMinimumValidator::new(3i32)).is_err());
    assert!(validate_with(&4i32, &ExclusiveMinimumValidator::new(3i32)).is_ok());
    assert!(validate_with(&3i32, &MaximumValidator::new(3i32)).is_ok());
    assert!(validate_with(&4i32, &MaximumValidator::new(3i32)).is_err());
    assert!(validate_with(&3i32, &ExclusiveMaximumValidator::new(3i32)).is_err());
    assert!(validate_with(&2i32, &ExclusiveMaximumValidator::new(3i32)).is_ok());
}

#[test]
fn primitive_errors_carry_texts() {
    let errors = validate_with(&-128i8, &MinimumValidator::new(-127i8)).unwrap_err();
    assert_eq!(errors, vec![error(ValidationErrorCategory::Minimum, "", "-128", "-127")]);
    let errors = validate_with(&u64::MAX, &MaximumValidator::new(10u64)).unwrap_err();
    assert_eq!(
        errors,
        vec![error(ValidationErrorCategory::Maximum, "", "18446744073709551615", "10")]
    );
    let errors = validate_with(&i64::MIN, &ExclusiveMinimumValidator::new(i64::MIN)).unwrap_err();
    assert_eq!(
        errors,
        vec![error(
            ValidationErrorCategory::ExclusiveMinimum,
            "",
            "-9223372036854775808",
            "-9223372036854775808"
        )]
    );
}

#[test]
fn multiple_of_with_signs() {
    assert!(validate_with(&-4i32, &MultipleOfValidator::new(2i32)).is_ok());
    assert!(validate_with(&6i32, &MultipleOfValidator::new(-3i32)).is_ok());
    assert!(validate_with(&0i32, &MultipleOfValidator::new(7i32)).is_ok());
    assert!(validate_with(&i128::MIN, &MultipleOfValidator::new(2i128)).is_ok());
    let errors = validate_with(&-3i32, &MultipleOfValidator::new(2i32)).unwrap_err();
    assert_eq!(errors, vec![error(ValidationErrorCategory::MultipleOf, "", "-3", "2")]);
}

#[test]
fn length_counts_utf8_bytes() {
    let word = "héllo".to_owned();
    assert!(validate_with(&word, &MaxLengthValidator::new(6)).is_ok());
    assert!(validate_with(&word, &MinLengthValidator::new(6)).is_ok());
    let errors = validate_with(&word, &MaxLengthValidator::new(5)).unwrap_err();
    assert_eq!(errors, vec![error(ValidationErrorCategory::MaxLength, "", "6", "5")]);
    let errors = validate_with(&word, &MinLengthValidator::new(7)).unwrap_err();
    assert_eq!(errors, vec![error(ValidationErrorCategory::MinLength, "", "6", "7")]);
    let accent = "é".to_owned();
    let errors = validate_with(&accent, &MaxLengthValidator::new(1)).unwrap_err();
    assert_eq!(errors, vec![error(ValidationErrorCategory::MaxLength, "", "2", "1")]);
    assert!(validate_with(&accent, &MinLengthValidator::new(2)).is_ok());
}

#[test]
fn item_counts() {
    let items = vec![1u8, 2, 3];
    assert!(validate_with(&items, &MaxItemsValidator::new(3)).is_ok());
    assert!(validate_with(&items, &MinItemsValidator::new(3)).is_ok());
    let errors = validate_with(&items, &MaxItemsValidator::new(2)).unwrap_err();
    assert_eq!(errors, vec![error(ValidationErrorCategory::MaxItems, "", "3", "2")]);
    let errors = validate_with(&Vec::<u8>::new(), &MinItemsValidator::new(1)).unwrap_err();
    assert_eq!(errors, vec![error(ValidationErrorCategory::MinItems, "", "0", "1")]);
}

#[test]
fn pattern_searches_anywhere() {
    let validator = PatternValidator::new("[0-9]+").unwrap();
    assert!(validate_with(&"ab12cd".to_owned(), &validator).is_ok());
    let errors = validate_with(&"abc".to_owned(), &validator).unwrap_err();
    assert_eq!(errors, vec![error(ValidationErrorCategory::Pattern, "", "abc", "[0-9]+")]);
    assert!(PatternValidator::new("[0-9").is_err());
}

#[test]
fn optional_skip() {
    let validator = OptionValidator::new(MinimumValidator::new(3i32));
    assert!(validate_with(&None, &validator).is_ok());
    let errors = validate_with(&Some(2i32), &validator).unwrap_err();
    assert_eq!(errors, vec![error(ValidationErrorCategory::Minimum, "", "2", "3")]);
}

#[test]
fn vector_items_at_their_index() {
    let validator = VecValidator::new(MinimumValidator::new(0i64));
    let errors = validate_with(&vec![1i64, -1, 2, -2], &validator).unwrap_err();
    assert_eq!(
        errors,
        vec![
            error(ValidationErrorCategory::Minimum, "[1]", "-1", "0"),
            error(ValidationErrorCategory::Minimum, "[3]", "-2", "0"),
        ]
    );
    let root = ValidationPath::Root;
    let field = ValidationPath::Field { parent: &root, name: "a" };
    let mut collected = vec![error(ValidationErrorCategory::Pattern, "x", "y", "z")];
    validator.validate(&field, &vec![-5i64], &mut collected);
    assert_eq!(collected.len(), 2);
    assert_eq!(collected[1], error(ValidationErrorCategory::Minimum, "a[0]", "-5", "0"));
}

#[test]
fn default_validators_accept_scalars() {
    assert!(5i32.validate().is_ok());
    assert!("anything".to_owned().validate().is_ok());
    assert!(Some(vec![Some(1u8), None]).validate().is_ok());
    assert!(validate_with(&true, &AlwaysValidValidator {}).is_ok());
    let root = ValidationPath::Root;
    let mut collected = Vec::new();
    vec![1i16, 2].validate_ex(&root, &mut collected);
    assert!(collected.is_empty());
}

#[test]
fn validation_is_repeatable() {
    let decl = TypeDecl::Record(vec![
        named("a", int32(), vec![bound("minimum", 0)]),
        named("b", FieldType::Text, vec![bound("max_length", 1)]),
    ]);
    let validator = derive_validatable(&decl).unwrap();
    let value = Value::Record(vec![Value::Int(-1), Value::Text("xy".to_owned())]);
    let first = validate_with(&value, &validator);
    let second = validate_with(&value, &validator);
    assert_eq!(first, second);
    assert_eq!(first.unwrap_err().len(), 2);
}

#[test]
fn every_violating_field_reported() {
    let decl = TypeDecl::Record(vec![
        named("a", int32(), vec![bound("minimum", 0)]),
        named("b", int32(), vec![bound("maximum", 0)]),
        named("c", FieldType::Text, vec![bound("min_length", 3)]),
        named("d", FieldType::List(Box::new(int32())), vec![bound("min_items", 1)]),
    ]);
    let validator = derive_validatable(&decl).unwrap();
    let value = Value::Record(vec![
        Value::Int(-1),
        Value::Int(1),
        Value::Text("x".to_owned()),
        Value::List(vec![]),
    ]);
    let errors = validate_with(&value, &validator).unwrap_err();
    assert_eq!(errors.len(), 4);
    assert_eq!(errors[0].path, "a");
    assert_eq!(errors[1].path, "b");
    assert_eq!(errors[2].path, "c");
    assert_eq!(errors[3].path, "d");
}

#[test]
fn nested_errors_come_before_field_constraints() {
    let inner = TypeDecl::Record(vec![positional(int32(), vec![bound("minimum", 3)])]);
    let decl = TypeDecl::Record(vec![named(
        "items",
        FieldType::List(Box::new(FieldType::Optional(Box::new(FieldType::Nested(Box::new(inner)))))),
        vec![bound("max_items", 1)],
    )]);
    let validator = derive_validatable(&decl).unwrap();
    let record = |v: i128| Value::Optional(Some(Box::new(Value::Record(vec![Value::Int(v)]))));
    let value = Value::Record(vec![Value::List(vec![record(1), Value::Optional(None), record(2)])]);
    let errors = validate_with(&value, &validator).unwrap_err();
    assert_eq!(
        errors,
        vec![
            error(ValidationErrorCategory::Minimum, "items[0].0", "1", "3"),
            error(ValidationErrorCategory::Minimum, "items[2].0", "2", "3"),
            error(ValidationErrorCategory::MaxItems, "items", "3", "1"),
        ]
    );
}

#[test]
fn unknown_constraints_and_unknown_tags_are_ignored() {
    let decl = TypeDecl::Union(vec![VariantDecl {
        name: "A".to_owned(),
        fields: vec![named("x", int32(), vec![bound("nullable", 1), bound("minimum", 5)])],
    }]);
    let validator = derive_validatable(&decl).unwrap();
    assert!(validate_with(&Value::Variant("Z".to_owned(), vec![Value::Int(0)]), &validator).is_ok());
    let errors = validate_with(&Value::Variant("A".to_owned(), vec![Value::Int(0)]), &validator)
        .unwrap_err();
    assert_eq!(errors, vec![error(ValidationErrorCategory::Minimum, "A.x", "0", "5")]);
}

fn derivation_kind(field: FieldDecl) -> DerivationErrorKind {
    derive_validatable(&TypeDecl::Record(vec![field])).err().unwrap().kind
}

#[test]
fn derivation_errors() {
    assert_eq!(
        derivation_kind(named("n", int32(), vec![bound("min_length", 1)])),
        DerivationErrorKind::Unsupported
    );
    assert_eq!(
        derivation_kind(named("s", FieldType::Text, vec![bound("minimum", 1)])),
        DerivationErrorKind::Unsupported
    );
    assert_eq!(
        derivation_kind(named("n", int32(), vec![text("maximum", "3")])),
        DerivationErrorKind::WrongLiteral
    );
    assert_eq!(
        derivation_kind(named("s", FieldType::Text, vec![bound("pattern", 3)])),
        DerivationErrorKind::WrongLiteral
    );
    assert_eq!(
        derivation_kind(named("n", FieldType::Integer(IntKind::U8), vec![bound("maximum", 256)])),
        DerivationErrorKind::OutOfRange
    );
    assert_eq!(
        derivation_kind(named("n", FieldType::Integer(IntKind::U8), vec![bound("minimum", -1)])),
        DerivationErrorKind::OutOfRange
    );
    assert_eq!(
        derivation_kind(named("n", int32(), vec![bound("multiple_of", 0)])),
        DerivationErrorKind::OutOfRange
    );
    assert_eq!(
        derivation_kind(named("s", FieldType::Text, vec![bound("max_length", -1)])),
        DerivationErrorKind::OutOfRange
    );
    assert_eq!(
        derivation_kind(named("s", FieldType::Text, vec![text("pattern", "(")])),
        DerivationErrorKind::InvalidPattern
    );
    let duplicate = TypeDecl::Union(vec![
        VariantDecl { name: "A".to_owned(), fields: vec![] },
        VariantDecl { name: "A".to_owned(), fields: vec![] },
    ]);
    let e = derive_validatable(&duplicate).err().unwrap();
    assert_eq!(e.kind, DerivationErrorKind::DuplicateVariant);
    assert_eq!(e.field, "A");
}

#[test]
fn derivation_reports_the_first_mistake() {
    let decl = TypeDecl::Union(vec![
        VariantDecl {
            name: "A".to_owned(),
            fields: vec![positional(FieldType::Text, vec![bound("max_length", 2)])],
        },
        VariantDecl {
            name: "B".to_owned(),
            fields: vec![
                named("ok", int32(), vec![]),
                positional(int32(), vec![bound("minimum", 0), text("pattern", "x")]),
                positional(int32(), vec![bound("max_items", 1)]),
            ],
        },
    ]);
    let e = derive_validatable(&decl).err().unwrap();
    assert_eq!(e.kind, DerivationErrorKind::Unsupported);
    assert_eq!(e.field, "B._1");
    assert_eq!(e.constraint, "pattern");
}

#[test]
fn messages() {
    let cases = vec![
        (ValidationErrorCategory::Maximum, "a: Must be less than or equal to 3 but is 4"),
        (ValidationErrorCategory::ExclusiveMaximum, "a: Must be less than 3 but is 4"),
        (ValidationErrorCategory::Minimum, "a: Must be greater than or equal to 3 but is 4"),
        (ValidationErrorCategory::ExclusiveMinimum, "a: Must be greater than 3 but is 4"),
        (ValidationErrorCategory::MaxItems, "a: Must have at most 3 items but has 4"),
        (ValidationErrorCategory::MinItems, "a: Must have at least 3 items but has 4"),
        (ValidationErrorCategory::MaxLength, "a: Must have at most 3 characters but has 4"),
        (ValidationErrorCategory::MinLength, "a: Must have at least 3 characters but has 4"),
        (ValidationErrorCategory::MultipleOf, "a: Must be a multiple of 3 but is 4"),
        (ValidationErrorCategory::Pattern, "a: Must match the regular expression 3 but is 4"),
    ];
    for (category, message) in cases {
        assert_eq!(error(category, "a", "4", "3").to_string(), message);
    }
    let other = ValidationErrorCategory::Other {
        tag: "custom".to_owned(),
        message: "Must be even".to_owned(),
    };
    assert_eq!(error(other, "a", "4", "3").to_string(), "a: Must be even");
}

#[test]
fn some_violating_fields_reported_in_order() {
    let decl = TypeDecl::Record(vec![
        named("a", int32(), vec![bound("minimum", 0)]),
        named("b", int32(), vec![bound("maximum", 0)]),
        named("c", FieldType::Text, vec![bound("min_length", 3)]),
        named("d", int32(), vec![bound("multiple_of", 2)]),
    ]);
    let validator = derive_validatable(&decl).unwrap();
    let none = Value::Record(vec![
        Value::Int(0),
        Value::Int(0),
        Value::Text("xyz".to_owned()),
        Value::Int(4),
    ]);
    assert!(validate_with(&none, &validator).is_ok());
    let two = Value::Record(vec![
        Value::Int(0),
        Value::Int(5),
        Value::Text("xyz".to_owned()),
        Value::Int(3),
    ]);
    let errors = validate_with(&two, &validator).unwrap_err();
    assert_eq!(
        errors,
        vec![
            error(ValidationErrorCategory::Maximum, "b", "5", "0"),
            error(ValidationErrorCategory::MultipleOf, "d", "3", "2"),
        ]
    );
}

#[test]
fn conformance_to_declarations() {
    let inner = TypeDecl::Record(vec![positional(
        FieldType::Optional(Box::new(FieldType::Integer(IntKind::U8))),
        vec![],
    )]);
    let decl = TypeDecl::Union(vec![
        VariantDecl {
            name: "A".to_owned(),
            fields: vec![named("xs", FieldType::List(Box::new(FieldType::Nested(Box::new(inner)))), vec![])],
        },
        VariantDecl { name: "B".to_owned(), fields: vec![positional(FieldType::Text, vec![])] },
    ]);
    let record = |v: Option<i128>| Value::Record(vec![Value::Optional(v.map(|x| Box::new(Value::Int(x))))]);
    let a = |items: Vec<Value>| Value::Variant("A".to_owned(), vec![Value::List(items)]);
    assert!(conforms(&decl, &a(vec![record(Some(255)), record(None)])));
    assert!(!conforms(&decl, &a(vec![record(Some(256))])));
    assert!(!conforms(&decl, &a(vec![record(Some(-1))])));
    assert!(!conforms(&decl, &a(vec![Value::Int(1)])));
    assert!(conforms(&decl, &Value::Variant("B".to_owned(), vec![Value::Text("t".to_owned())])));
    assert!(!conforms(&decl, &Value::Variant("B".to_owned(), vec![Value::Bool(true)])));
    assert!(!conforms(&decl, &Value::Variant("B".to_owned(), vec![])));
    assert!(!conforms(&decl, &Value::Variant("C".to_owned(), vec![])));
    assert!(!conforms(&decl, &Value::Record(vec![])));
}
