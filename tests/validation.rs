use utoipa_validate::{
    derive_validatable, validate_with, Constraint, FieldDecl, FieldType, IntKind, Literal,
    TypeDecl, TypeValidator, ValidationError, ValidationErrorCategory, Value, VariantDecl,
};

fn bound(name: &str, value: i128) -> Constraint {
    Constraint { name: name.to_owned(), value: Literal::Int(value) }
}

fn text(name: &str, value: &str) -> Constraint {
    Constraint { name: name.to_owned(), value: Literal::Text(value.to_owned()) }
}

fn named(name: &str, ty: FieldType, constraints: Vec<Constraint>) -> FieldDecl {
    FieldDecl { name: Some(name.to_owned()), ty, constraints }
}

fn positional(ty: FieldType, constraints: Vec<Constraint>) -> FieldDecl {
    FieldDecl { name: None, ty, constraints }
}

fn error(category: ValidationErrorCategory, path: &str, actual: &str, expected: &str) -> ValidationError {
    ValidationError {
        category,
        path: path.to_owned(),
        actual: actual.to_owned(),
        expected: expected.to_owned(),
    }
}

fn integer_fields() -> TypeValidator {
    let decl = TypeDecl::Record(vec![
        named("signed8", FieldType::Integer(IntKind::I8), vec![bound("minimum", -1), bound("maximum", 3)]),
        named("signed16", FieldType::Integer(IntKind::I16), vec![bound("minimum", -2), bound("maximum", 12)]),
        named("signed32", FieldType::Integer(IntKind::I32), vec![bound("minimum", -3), bound("maximum", 14)]),
        named(
            "signed64",
            FieldType::Integer(IntKind::I64),
            vec![bound("exclusive_minimum", -4), bound("exclusive_maximum", 8)],
        ),
        named("unsigned8", FieldType::Integer(IntKind::U8), vec![bound("minimum", 1), bound("maximum", 6)]),
        named("unsigned16", FieldType::Integer(IntKind::U16), vec![bound("minimum", 2), bound("maximum", 16)]),
        named("unsigned32", FieldType::Integer(IntKind::U32), vec![bound("multiple_of", 2)]),
        named(
            "unsigned64",
            FieldType::Integer(IntKind::U64),
            vec![bound("exclusive_minimum", 4), bound("exclusive_maximum", 6)],
        ),
    ]);
    derive_validatable(&decl).unwrap()
}

fn ints(values: &[i128]) -> Value {
    Value::Record(values.iter().map(|v| Value::Int(*v)).collect())
}

#[test]
fn valid_integer_fields() {
    let validator = integer_fields();
    let result = validate_with(&ints(&[-1, -2, -3, -3, 1, 2, 2, 5]), &validator);

    assert!(result.is_ok());

    let result = validate_with(&ints(&[3, 12, 14, 7, 3, 12, 0, 5]), &validator);

    assert!(result.is_ok());
}

#[test]
fn invalid_integer_fields() {
    let validator = integer_fields();
    let result = validate_with(&ints(&[-2, -3, -4, -4, 0, 1, 1, 4]), &validator);

    assert!(result.is_err());
    let error_list = result.unwrap_err();
    assert_eq!(error_list.len(), 8);
    assert_eq!(error_list[0], error(ValidationErrorCategory::Minimum, "signed8", "-2", "-1"));
    assert_eq!(error_list[1], error(ValidationErrorCategory::Minimum, "signed16", "-3", "-2"));
    assert_eq!(error_list[2], error(ValidationErrorCategory::Minimum, "signed32", "-4", "-3"));
    assert_eq!(error_list[3], error(ValidationErrorCategory::ExclusiveMinimum, "signed64", "-4", "-4"));
    assert_eq!(error_list[4], error(ValidationErrorCategory::Minimum, "unsigned8", "0", "1"));
    assert_eq!(error_list[5], error(ValidationErrorCategory::Minimum, "unsigned16", "1", "2"));
    assert_eq!(error_list[6], error(ValidationErrorCategory::MultipleOf, "unsigned32", "1", "2"));
    assert_eq!(error_list[7], error(ValidationErrorCategory::ExclusiveMinimum, "unsigned64", "4", "4"));

    let result = validate_with(&ints(&[4, 13, 15, 8, 7, 17, 3, 6]), &validator);

    assert!(result.is_err());
    let error_list = result.unwrap_err();
    assert_eq!(error_list.len(), 8);
    assert_eq!(error_list[0], error(ValidationErrorCategory::Maximum, "signed8", "4", "3"));
    assert_eq!(error_list[1], error(ValidationErrorCategory::Maximum, "signed16", "13", "12"));
    assert_eq!(error_list[2], error(ValidationErrorCategory::Maximum, "signed32", "15", "14"));
    assert_eq!(error_list[3], error(ValidationErrorCategory::ExclusiveMaximum, "signed64", "8", "8"));
    assert_eq!(error_list[4], error(ValidationErrorCategory::Maximum, "unsigned8", "7", "6"));
    assert_eq!(error_list[5], error(ValidationErrorCategory::Maximum, "unsigned16", "17", "16"));
    assert_eq!(error_list[6], error(ValidationErrorCategory::MultipleOf, "unsigned32", "3", "2"));
    assert_eq!(error_list[7], error(ValidationErrorCategory::ExclusiveMaximum, "unsigned64", "6", "6"));
}

fn string_fields() -> TypeValidator {
    let decl = TypeDecl::Record(vec![
        named("s", FieldType::Text, vec![bound("min_length", 1), bound("max_length", 5)]),
        named("hex", FieldType::Text, vec![text("pattern", "^[0-9a-f]+$")]),
    ]);
    derive_validatable(&decl).unwrap()
}

fn texts(s: &str, hex: &str) -> Value {
    Value::Record(vec![Value::Text(s.to_owned()), Value::Text(hex.to_owned())])
}

#[test]
fn valid_string_fields() {
    let validator = string_fields();
    let result = validate_with(&texts("1", "deef"), &validator);

    assert!(result.is_ok());

    let result = validate_with(&texts("12345", "bee138"), &validator);

    assert!(result.is_ok());
}

#[test]
fn invalid_string_fields() {
    let validator = string_fields();
    let result = validate_with(&texts("", ""), &validator);

    assert!(result.is_err());
    let error_list = result.unwrap_err();
    assert_eq!(error_list.len(), 2);
    assert_eq!(error_list[0], error(ValidationErrorCategory::MinLength, "s", "0", "1"));
    assert_eq!(error_list[1], error(ValidationErrorCategory::Pattern, "hex", "", "^[0-9a-f]+$"));

    let result = validate_with(&texts("123456", "abz"), &validator);

    assert!(result.is_err());
    let error_list = result.unwrap_err();
    assert_eq!(error_list.len(), 2);
    assert_eq!(error_list[0], error(ValidationErrorCategory::MaxLength, "s", "6", "5"));
    assert_eq!(error_list[1], error(ValidationErrorCategory::Pattern, "hex", "abz", "^[0-9a-f]+$"));
}

fn unnamed_option_decl() -> TypeDecl {
    TypeDecl::Record(vec![positional(
        FieldType::Optional(Box::new(FieldType::Integer(IntKind::I32))),
        vec![bound("minimum", 3)],
    )])
}

fn unnamed_option(value: Option<i128>) -> Value {
    Value::Record(vec![Value::Optional(value.map(|v| Box::new(Value::Int(v))))])
}

#[test]
fn valid_unnamed_option() {
    let validator = derive_validatable(&unnamed_option_decl()).unwrap();
    let result = validate_with(&unnamed_option(None), &validator);

    assert!(result.is_ok());

    let result = validate_with(&unnamed_option(Some(4)), &validator);

    assert!(result.is_ok());
}

#[test]
fn invalid_unnamed_option() {
    let validator = derive_validatable(&unnamed_option_decl()).unwrap();
    let result = validate_with(&unnamed_option(Some(2)), &validator);

    assert!(result.is_err());
    let error_list = result.unwrap_err();
    assert_eq!(error_list.len(), 1);
    assert_eq!(error_list[0], error(ValidationErrorCategory::Minimum, "0", "2", "3"));
}

fn unnamed_vec() -> TypeValidator {
    let decl = TypeDecl::Record(vec![positional(
        FieldType::List(Box::new(FieldType::Integer(IntKind::I32))),
        vec![bound("min_items", 1), bound("max_items", 3)],
    )]);
    derive_validatable(&decl).unwrap()
}

fn int_list(values: &[i128]) -> Value {
    Value::Record(vec![Value::List(values.iter().map(|v| Value::Int(*v)).collect())])
}

#[test]
fn valid_unnamed_vec() {
    let validator = unnamed_vec();
    let result = validate_with(&int_list(&[1]), &validator);

    assert!(result.is_ok());

    let result = validate_with(&int_list(&[1, 2, 3]), &validator);

    assert!(result.is_ok());
}

#[test]
fn invalid_unnamed_vec() {
    let validator = unnamed_vec();
    let result = validate_with(&int_list(&[]), &validator);

    assert!(result.is_err());
    let error_list = result.unwrap_err();
    assert_eq!(error_list.len(), 1);
    assert_eq!(error_list[0], error(ValidationErrorCategory::MinItems, "0", "0", "1"));

    let result = validate_with(&int_list(&[1, 2, 3, 4]), &validator);

    assert!(result.is_err());
    let error_list = result.unwrap_err();
    assert_eq!(error_list.len(), 1);
    assert_eq!(error_list[0], error(ValidationErrorCategory::MaxItems, "0", "4", "3"));
}

fn enum_validator() -> TypeValidator {
    let decl = TypeDecl::Union(vec![
        VariantDecl {
            name: "A".to_owned(),
            fields: vec![named("one", FieldType::Integer(IntKind::I32), vec![bound("minimum", 1)])],
        },
        VariantDecl {
            name: "B".to_owned(),
            fields: vec![positional(FieldType::Integer(IntKind::I32), vec![bound("minimum", 1)])],
        },
        VariantDecl { name: "C".to_owned(), fields: vec![] },
    ]);
    derive_validatable(&decl).unwrap()
}

fn variant(tag: &str, values: Vec<Value>) -> Value {
    Value::Variant(tag.to_owned(), values)
}

#[test]
fn valid_enum() {
    let validator = enum_validator();
    let result = validate_with(&variant("A", vec![Value::Int(1)]), &validator);

    assert!(result.is_ok());

    let result = validate_with(&variant("B", vec![Value::Int(1)]), &validator);

    assert!(result.is_ok());

    let result = validate_with(&variant("C", vec![]), &validator);

    assert!(result.is_ok());
}

#[test]
fn invalid_enum() {
    let validator = enum_validator();
    let result = validate_with(&variant("A", vec![Value::Int(0)]), &validator);

    assert!(result.is_err());
    let error_list = result.unwrap_err();
    assert_eq!(error_list.len(), 1);
    assert_eq!(error_list[0], error(ValidationErrorCategory::Minimum, "A.one", "0", "1"));

    let result = validate_with(&variant("B", vec![Value::Int(0)]), &validator);

    assert!(result.is_err());
    let error_list = result.unwrap_err();
    assert_eq!(error_list.len(), 1);
    assert_eq!(error_list[0], error(ValidationErrorCategory::Minimum, "B._0", "0", "1"));
}

fn nested() -> TypeValidator {
    let decl = TypeDecl::Record(vec![named(
        "o",
        FieldType::Nested(Box::new(unnamed_option_decl())),
        vec![],
    )]);
    derive_validatable(&decl).unwrap()
}

#[test]
fn valid_nested() {
    let validator = nested();
    let result = validate_with(&Value::Record(vec![unnamed_option(Some(4))]), &validator);

    assert!(result.is_ok());
}

#[test]
fn invalid_nested() {
    let validator = nested();
    let result = validate_with(&Value::Record(vec![unnamed_option(Some(2))]), &validator);

    assert!(result.is_err());
    let error_list = result.unwrap_err();
    assert_eq!(error_list.len(), 1);
    assert_eq!(error_list[0], error(ValidationErrorCategory::Minimum, "o.0", "2", "3"));
}
