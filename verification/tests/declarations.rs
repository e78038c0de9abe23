use serde_valid::derive::common::{
    MetaListMessage, MetaListValidation, MetaNameValueMessage, MetaNameValueValidation,
    MetaPathValidation,
};
use serde_valid::derive::tables::{add_name, has_name, pattern_of, report_refusal};
use serde_valid::derive::PatternUse;
use serde_valid::derive::types::{get_field_type, shape_of, FieldType, TypeForm, UnnamedField};
use serde_valid::derive::{find_rename, Rename};
use serde_valid::derive::validate::{
    extract_attribute_validator, extract_custom_fn_name, extract_format_fn_name, extract_generic_enumerate_validator,
    extract_message_fn_tokens, extract_validator_from_nested_meta_name_value,
    extract_validator_from_nested_meta_path, function_number, get_count, get_numeric, get_str,
};
use serde_valid::derive::{
    collect_validators, compile_patterns, declared_functions, declared_patterns,
    extract_generic_custom_validator, extract_meta_validator,
    extract_string_format_validator, extract_string_pattern_validator,
    extract_string_pattern_validator_from_meta_name_value,
    extract_validator_from_meta_list, extract_validator_from_nested_meta_list,
    find_original_field_name, reaches_literal, Attribute, Error, ErrorKind, FieldDeclaration,
    Lit, Located, Meta, MetaList, MetaNameValue, NestedMeta,
};
use serde_valid::error::{Literal, Number};
use serde_valid::validation::{Error as Violation, PatternCache};
use serde_valid::validator::{Check, Constraint, MessageSource, Shape, Validator};
use serde_valid::value::{Field, Record, RecordKind, Value};
use serde_valid::walker::Context;

const FUNCTIONS: [&str; 3] = ["gmail", "is_even", "shout"];

fn path(name: &str) -> NestedMeta {
    NestedMeta::Meta(Meta::Path(name.to_owned()))
}

fn list(name: &str, nested: Vec<NestedMeta>) -> MetaList {
    MetaList { path: name.to_owned(), nested }
}

fn nested_list(name: &str, nested: Vec<NestedMeta>) -> NestedMeta {
    NestedMeta::Meta(Meta::List(list(name, nested)))
}

fn name_value(name: &str, lit: Lit) -> MetaNameValue {
    MetaNameValue { path: name.to_owned(), lit }
}

fn nested_name_value(name: &str, lit: Lit) -> NestedMeta {
    NestedMeta::Meta(Meta::NameValue(name_value(name, lit)))
}

fn integer(value: i64) -> Lit {
    Lit::Int(Number::I64(value))
}

fn text(value: &str) -> Lit {
    Lit::Str(value.to_owned())
}

fn validate(nested: Vec<NestedMeta>) -> MetaList {
    list("validate", nested)
}

fn patterns() -> PatternCache {
    let mut cache = PatternCache::new();
    cache.get_or_compile("^a+$").unwrap();
    cache.get_or_compile("^[a-z]+$").unwrap();
    cache
}

fn kinds(errors: &[Error]) -> Vec<ErrorKind> {
    errors.iter().map(|error| error.kind).collect()
}

fn check_of(validator: Validator) -> Check {
    match validator {
        Validator::Normal(check) => check,
        _ => panic!("a check on the value itself was expected"),
    }
}

#[test]
fn names_of_validations() {
    assert_eq!(MetaListValidation::Format.name(), "format");
    assert_eq!(MetaListValidation::from_str("custom"), Ok(MetaListValidation::Custom));
    assert_eq!(MetaListValidation::from_str("customs"), Err("customs".to_owned()));
    assert_eq!(
        MetaListValidation::iter(),
        [MetaListValidation::Format, MetaListValidation::Enumerate, MetaListValidation::Custom]
    );
    assert_eq!(MetaListValidation::names(), ["format", "enumerate", "custom"]);
    assert_eq!(MetaNameValueValidation::iter().len(), 12);
    assert_eq!(MetaNameValueValidation::names().len(), 12);
    for validation in MetaNameValueValidation::iter() {
        assert_eq!(MetaNameValueValidation::from_str(validation.name()), Ok(validation));
    }
    assert_eq!(MetaNameValueValidation::MultipleOf.name(), "multiple_of");
    assert_eq!(MetaPathValidation::from_str("unique_items"), Ok(MetaPathValidation::UniqueItems));
    assert_eq!(MetaPathValidation::UniqueItems.name(), "unique_items");
    assert_eq!(MetaListMessage::from_str("message_fn"), Ok(MetaListMessage::MessageFn));
    assert_eq!(MetaNameValueMessage::from_str("message"), Ok(MetaNameValueMessage::Message));
    assert_eq!(MetaNameValueMessage::from_str(""), Err(String::new()));
}

#[test]
fn messages_of_declaration_faults() {
    assert_eq!(
        Error::unit_struct_not_support().message(),
        "#[derive(Validate)] does not support Unit Struct."
    );
    assert_eq!(Error::union_not_support().kind, ErrorKind::UnionNotSupport);
    assert_eq!(Error::rule_need_function().message(), "#[rule(???)] needs rule_fn.");
    assert_eq!(Error::rule_allow_single_function().message(), "#[rule] allow single function.");
    assert_eq!(Error::rule_need_arguments().message(), "`rule` function needs arguments.");
    assert_eq!(
        Error::rule_allow_path_arguments("check").message(),
        "#[rule(check(???, ...))] allow field path only."
    );
    assert_eq!(
        Error::rule_allow_index_arguments("check").message(),
        "#[rule(check(???, ...))] allow index integer only."
    );
    assert_eq!(
        Error::rule_validate_attribute_parse_error("expected `,`").message(),
        "#[rule] parse error: expected `,`"
    );
    assert_eq!(
        Error::validate_meta_name_value_need_value("minimum").message(),
        "#[validate(minimum = ???)] needs validation value."
    );
    assert_eq!(
        Error::validate_meta_path_need_value("unique_items").message(),
        "#[validate(unique_items(???))] needs validation path."
    );
    assert_eq!(
        Error::validate_meta_list_need_value("enumerate").message(),
        "#[validate(enumerate(???, ...))] needs validation list."
    );
    assert_eq!(
        Error::validate_attribute_parse_error("expected `,`").message(),
        "#[validate] parse error: expected `,`"
    );
    assert_eq!(Error::validate_need_type().message(), "#[validate(???)] needs validation type.");
    assert_eq!(Error::too_many_list_items().message(), "Too many list items.");
    assert_eq!(Error::literal_only().message(), "Allow literal only.");
    assert_eq!(
        Error::pattern_not_found("(").message(),
        "The pattern \"(\" is not among the patterns of the caller."
    );
    assert_eq!(
        Error::function_not_found("f").message(),
        "The function `f` is not among the functions of the caller."
    );
}

#[test]
fn unknown_name_offers_the_similar_names() {
    let error = Error::validate_unknown_type("formt", &["format", "enumerate", "custom"]);
    assert_eq!(error.kind, ErrorKind::ValidateUnknownType);
    assert_eq!(
        error.message(),
        "Unknown: `formt`. Is it one of the following?\n[\n    \"format\",\n]"
    );
    let error = Error::validate_unknown_type("xyz", &["format", "custom"]);
    assert_eq!(
        error.message(),
        "Unknown: `xyz`. Is it one of the following?\n[\n    \"format\",\n    \"custom\",\n]"
    );
    let error = Error::validate_unknown_type("xyz", &[]);
    assert_eq!(error.message(), "Unknown: `xyz`. Is it one of the following?\n[]");
}

#[test]
fn literals_give_numbers_counts_and_texts() {
    assert_eq!(get_numeric(&integer(-3)).unwrap(), Number::I64(-3));
    assert_eq!(kinds(&get_numeric(&text("3")).unwrap_err()), [ErrorKind::NumericLiteralOnly]);
    assert_eq!(get_count(&integer(3)).unwrap(), 3);
    assert_eq!(get_count(&Lit::Int(Number::U8(0))).unwrap(), 0);
    assert_eq!(kinds(&get_count(&integer(-1)).unwrap_err()), [ErrorKind::NumericLiteralOnly]);
    assert_eq!(
        kinds(&get_count(&Lit::Int(Number::U128(u128::MAX))).unwrap_err()),
        [ErrorKind::NumericLiteralOnly]
    );
    assert_eq!(kinds(&get_count(&Lit::Bool(true)).unwrap_err()), [ErrorKind::NumericLiteralOnly]);
    assert_eq!(get_str(&text("abc")).unwrap(), "abc");
    assert_eq!(kinds(&get_str(&integer(1)).unwrap_err()), [ErrorKind::StrLiteralOnly]);
    assert_eq!(kinds(&get_str(&Lit::Other).unwrap_err()), [ErrorKind::StrLiteralOnly]);
}

#[test]
fn functions_are_numbered_by_their_place() {
    assert_eq!(function_number("gmail", &FUNCTIONS), Some(0));
    assert_eq!(function_number("shout", &FUNCTIONS), Some(2));
    assert_eq!(function_number("other", &FUNCTIONS), None);
    assert_eq!(function_number("a", &["a", "b", "a"]), Some(0));
    assert_eq!(extract_format_fn_name(&path("gmail")).unwrap(), "gmail");
    assert_eq!(extract_custom_fn_name(&nested_list("is_even", vec![])).unwrap(), "is_even");
    assert_eq!(
        extract_format_fn_name(&nested_name_value("a", integer(1))).unwrap_err().kind,
        ErrorKind::MetaNameValueNotSupport
    );
    assert_eq!(
        extract_custom_fn_name(&NestedMeta::Lit(integer(1))).unwrap_err().kind,
        ErrorKind::LiteralNotSupport
    );
}

#[test]
fn format_takes_one_function() {
    let found = extract_string_format_validator(
        &Shape::Scalar,
        &list("format", vec![path("gmail")]),
        MessageSource::Default,
        &FUNCTIONS,
    );
    assert!(matches!(check_of(found.unwrap()).constraint, Constraint::Format(0)));

    let none = extract_string_format_validator(
        &Shape::Scalar,
        &list("format", vec![]),
        MessageSource::Default,
        &FUNCTIONS,
    );
    assert_eq!(kinds(&none.err().unwrap()), [ErrorKind::ValidateFormatNeedItem]);

    let many = extract_string_format_validator(
        &Shape::Scalar,
        &list("format", vec![path("gmail"), path("shout"), path("other")]),
        MessageSource::Default,
        &FUNCTIONS,
    );
    assert_eq!(
        kinds(&many.err().unwrap()),
        [ErrorKind::ValidateFormatTailError, ErrorKind::ValidateFormatTailError]
    );

    let unknown = extract_string_format_validator(
        &Shape::Scalar,
        &list("format", vec![path("other")]),
        MessageSource::Default,
        &FUNCTIONS,
    );
    let errors = unknown.err().unwrap();
    assert_eq!(kinds(&errors), [ErrorKind::FunctionNotFound]);
    assert_eq!(
        errors[0].message(),
        "The function `other` is not among the functions of the caller."
    );
}

#[test]
fn format_goes_to_the_values_of_the_shape() {
    let shape = Shape::Sequence(Box::new(Shape::Optional(Box::new(Shape::Scalar))));
    let found = extract_string_format_validator(
        &shape,
        &list("format", vec![path("gmail")]),
        MessageSource::Default,
        &FUNCTIONS,
    )
    .unwrap();
    assert!(matches!(&found, Validator::Array(inner)
        if matches!(&**inner, Validator::Option(check)
            if matches!(&**check, Validator::Normal(_)))));
}

#[test]
fn custom_takes_one_function_and_stays_on_the_field() {
    let found =
        extract_generic_custom_validator(&list("custom", vec![path("is_even")]), &FUNCTIONS);
    let check = check_of(found.unwrap());
    assert!(matches!(check.constraint, Constraint::Custom(1)));
    assert!(matches!(check.message, MessageSource::Default));
    let none = extract_generic_custom_validator(&list("custom", vec![]), &FUNCTIONS);
    assert_eq!(kinds(&none.err().unwrap()), [ErrorKind::ValidateCustomNeedItem]);
    let many = extract_generic_custom_validator(
        &list("custom", vec![path("is_even"), path("gmail")]),
        &FUNCTIONS,
    );
    assert_eq!(kinds(&many.err().unwrap()), [ErrorKind::ValidateCustomTailError]);
    let literal =
        extract_generic_custom_validator(&list("custom", vec![NestedMeta::Lit(integer(1))]), &FUNCTIONS);
    assert_eq!(kinds(&literal.err().unwrap()), [ErrorKind::LiteralNotSupport]);

    let on_sequence = extract_validator_from_meta_list(
        &Shape::Sequence(Box::new(Shape::Scalar)),
        &validate(vec![nested_list("custom", vec![path("is_even")])]),
        &FUNCTIONS,
        &patterns(),
    );
    assert!(matches!(on_sequence.unwrap(), Validator::Normal(_)));
}

#[test]
fn enumerate_takes_literals() {
    let found = extract_generic_enumerate_validator(
        &list(
            "enumerate",
            vec![NestedMeta::Lit(integer(1)), NestedMeta::Lit(text("a")), NestedMeta::Lit(Lit::Bool(true))],
        ),
        MessageSource::Default,
    )
    .unwrap();
    match found.constraint {
        Constraint::Enumerate(candidates) => {
            assert_eq!(candidates.len(), 3);
            assert!(matches!(candidates[0], Literal::Number(Number::I64(1))));
            assert!(matches!(&candidates[1], Literal::Str(text) if text == "a"));
            assert!(matches!(candidates[2], Literal::Bool(true)));
        }
        _ => panic!("candidates were expected"),
    }
    let none = extract_generic_enumerate_validator(&list("enumerate", vec![]), MessageSource::Default);
    assert_eq!(kinds(&none.err().unwrap()), [ErrorKind::ValidateEnumerateNeedItem]);
    let faulty = extract_generic_enumerate_validator(
        &list(
            "enumerate",
            vec![NestedMeta::Lit(integer(1)), path("a"), NestedMeta::Lit(Lit::Other), path("b")],
        ),
        MessageSource::Default,
    );
    assert_eq!(
        kinds(&faulty.err().unwrap()),
        [ErrorKind::LiteralOnly, ErrorKind::LiteralNotSupport, ErrorKind::LiteralOnly]
    );
}

#[test]
fn nested_list_is_known_by_its_name() {
    let format = extract_validator_from_nested_meta_list(
        &list("format", vec![path("shout")]),
        MessageSource::Default,
        &FUNCTIONS,
    );
    assert!(matches!(format.unwrap().constraint, Constraint::Format(2)));
    let enumerate = extract_validator_from_nested_meta_list(
        &list("enumerate", vec![NestedMeta::Lit(integer(1))]),
        MessageSource::Default,
        &FUNCTIONS,
    );
    assert!(matches!(enumerate.unwrap().constraint, Constraint::Enumerate(_)));
    let custom = extract_validator_from_nested_meta_list(
        &list("custom", vec![path("gmail")]),
        MessageSource::Default,
        &FUNCTIONS,
    );
    assert!(matches!(custom.unwrap().constraint, Constraint::Custom(0)));
    let unknown = extract_validator_from_nested_meta_list(
        &list("formt", vec![path("gmail")]),
        MessageSource::Default,
        &FUNCTIONS,
    );
    let errors = unknown.err().unwrap();
    assert_eq!(kinds(&errors), [ErrorKind::ValidateUnknownType]);
    assert_eq!(
        errors[0].message(),
        "Unknown: `formt`. Is it one of the following?\n[\n    \"format\",\n]"
    );
}

#[test]
fn name_value_is_known_by_its_name() {
    let declared = |name: &str, lit: Lit| {
        extract_validator_from_nested_meta_name_value(
            &name_value(name, lit),
            MessageSource::Default,
            &patterns(),
        )
    };
    assert!(matches!(
        declared("minimum", integer(18)).unwrap().constraint,
        Constraint::Minimum(Number::I64(18))
    ));
    assert!(matches!(
        declared("maximum", integer(-1)).unwrap().constraint,
        Constraint::Maximum(Number::I64(-1))
    ));
    assert!(matches!(
        declared("exclusive_minimum", integer(0)).unwrap().constraint,
        Constraint::ExclusiveMinimum(_)
    ));
    assert!(matches!(
        declared("exclusive_maximum", integer(0)).unwrap().constraint,
        Constraint::ExclusiveMaximum(_)
    ));
    assert!(matches!(
        declared("multiple_of", integer(5)).unwrap().constraint,
        Constraint::MultipleOf(_)
    ));
    assert!(matches!(declared("min_length", integer(3)).unwrap().constraint, Constraint::MinLength(3)));
    assert!(matches!(declared("max_length", integer(3)).unwrap().constraint, Constraint::MaxLength(3)));
    assert!(matches!(declared("min_items", integer(1)).unwrap().constraint, Constraint::MinItems(1)));
    assert!(matches!(declared("max_items", integer(2)).unwrap().constraint, Constraint::MaxItems(2)));
    assert!(matches!(
        declared("min_properties", integer(1)).unwrap().constraint,
        Constraint::MinProperties(1)
    ));
    assert!(matches!(
        declared("max_properties", integer(2)).unwrap().constraint,
        Constraint::MaxProperties(2)
    ));
    assert!(matches!(
        declared("pattern", text("^a+$")).unwrap().constraint,
        Constraint::Pattern(pattern) if pattern.as_str() == "^a+$"
    ));
    assert_eq!(
        kinds(&declared("minimum", text("18")).err().unwrap()),
        [ErrorKind::NumericLiteralOnly]
    );
    assert_eq!(
        kinds(&declared("min_length", integer(-3)).err().unwrap()),
        [ErrorKind::NumericLiteralOnly]
    );
    assert_eq!(kinds(&declared("pattern", integer(1)).err().unwrap()), [ErrorKind::StrLiteralOnly]);
    let errors = declared("pattern", text("^b+$")).err().unwrap();
    assert_eq!(kinds(&errors), [ErrorKind::PatternNotFound]);
    assert_eq!(
        errors[0].message(),
        "The pattern \"^b+$\" is not among the patterns of the caller."
    );
    assert_eq!(
        kinds(&declared("minimun", integer(1)).err().unwrap()),
        [ErrorKind::ValidateUnknownType]
    );
}

#[test]
fn pattern_goes_to_the_values_of_the_shape() {
    let found = extract_string_pattern_validator(
        &Shape::Optional(Box::new(Shape::Scalar)),
        &text("^a+$"),
        MessageSource::Default,
        &patterns(),
    )
    .unwrap();
    assert!(matches!(&found, Validator::Option(inner) if matches!(&**inner, Validator::Normal(_))));
    let errors = extract_string_pattern_validator(
        &Shape::Scalar,
        &integer(1),
        MessageSource::Default,
        &patterns(),
    )
    .err()
    .unwrap();
    assert_eq!(kinds(&errors), [ErrorKind::StrLiteralOnly]);
}

#[test]
fn bare_name_is_known() {
    let found = extract_validator_from_nested_meta_path("unique_items", MessageSource::Default);
    assert!(matches!(found.unwrap().constraint, Constraint::UniqueItems));
    let errors = extract_validator_from_nested_meta_path("unique", MessageSource::Default)
        .err()
        .unwrap();
    assert_eq!(kinds(&errors), [ErrorKind::ValidateUnknownType]);
}

#[test]
fn message_is_a_text_or_a_function() {
    let found = extract_message_fn_tokens(&nested_name_value("message", text("too short")), &FUNCTIONS);
    assert!(matches!(found.unwrap(), MessageSource::Text(text) if text == "too short"));
    let found = extract_message_fn_tokens(&nested_list("message_fn", vec![path("shout")]), &FUNCTIONS);
    assert!(matches!(found.unwrap(), MessageSource::Function(2)));

    let faults = |item: NestedMeta| kinds(&extract_message_fn_tokens(&item, &FUNCTIONS).err().unwrap());
    assert_eq!(faults(nested_name_value("message", integer(1))), [ErrorKind::StrLiteralOnly]);
    assert_eq!(faults(nested_name_value("mesage", text("a"))), [ErrorKind::ValidateUnknownType]);
    assert_eq!(faults(nested_list("message_fn", vec![])), [ErrorKind::MessageFnNeedItem]);
    assert_eq!(
        faults(nested_list("message_fn", vec![NestedMeta::Lit(integer(1))])),
        [ErrorKind::MessageFnAllowNamePath]
    );
    assert_eq!(
        faults(nested_list("message_fn", vec![path("shout"), path("gmail"), path("gmail")])),
        [ErrorKind::MessageFnTailError, ErrorKind::MessageFnTailError]
    );
    assert_eq!(
        faults(nested_list("message_fn", vec![path("other")])),
        [ErrorKind::FunctionNotFound]
    );
    assert_eq!(faults(nested_list("message", vec![])), [ErrorKind::ValidateUnknownType]);
    assert_eq!(faults(path("message")), [ErrorKind::MetaPathNotSupport]);
    assert_eq!(faults(NestedMeta::Lit(text("a"))), [ErrorKind::LiteralNotSupport]);
}

#[test]
fn validate_list_declares_a_check_with_its_message() {
    let found = extract_validator_from_meta_list(
        &Shape::Scalar,
        &validate(vec![
            nested_name_value("min_length", integer(3)),
            nested_name_value("message", text("too short")),
        ]),
        &FUNCTIONS,
        &patterns(),
    );
    let check = check_of(found.unwrap());
    assert!(matches!(check.constraint, Constraint::MinLength(3)));
    assert!(matches!(check.message, MessageSource::Text(text) if text == "too short"));

    let found = extract_validator_from_meta_list(
        &Shape::Scalar,
        &validate(vec![path("unique_items")]),
        &FUNCTIONS,
        &patterns(),
    );
    assert!(matches!(check_of(found.unwrap()).message, MessageSource::Default));
}

#[test]
fn validate_list_reports_all_its_faults() {
    let faults = |nested: Vec<NestedMeta>| {
        kinds(
            &extract_validator_from_meta_list(
                &Shape::Scalar,
                &validate(nested),
                &FUNCTIONS,
                &patterns(),
            )
                .err()
                .unwrap(),
        )
    };
    assert_eq!(faults(vec![]), [ErrorKind::ValidateNeedType]);
    assert_eq!(faults(vec![NestedMeta::Lit(integer(1))]), [ErrorKind::ValidateMetaLiteralNotSupport]);
    assert_eq!(
        faults(vec![nested_name_value("minimum", text("1")), path("message")]),
        [ErrorKind::MetaPathNotSupport, ErrorKind::NumericLiteralOnly]
    );
    assert_eq!(
        faults(vec![nested_name_value("minimum", integer(1)), path("message")]),
        [ErrorKind::MetaPathNotSupport]
    );
    assert_eq!(
        faults(vec![
            nested_name_value("minimun", integer(1)),
            nested_name_value("message", text("a")),
            nested_name_value("message", text("b")),
        ]),
        [
            ErrorKind::TooManyListItems,
            ErrorKind::TooManyListItems,
            ErrorKind::ValidateUnknownType
        ]
    );
}

#[test]
fn attribute_declares_a_validator() {
    let nested = extract_meta_validator(
        &Shape::Sequence(Box::new(Shape::Nested)),
        &Ok(Meta::Path("validate".to_owned())),
        &FUNCTIONS,
        &patterns(),
    )
    .unwrap();
    assert!(matches!(&nested, Validator::Array(inner)
        if matches!(&**inner, Validator::Normal(check)
            if matches!(check.constraint, Constraint::Nested))));
    let errors = extract_meta_validator(
        &Shape::Scalar,
        &Ok(Meta::NameValue(name_value("validate", integer(1)))),
        &FUNCTIONS,
        &patterns(),
    )
    .err()
    .unwrap();
    assert_eq!(kinds(&errors), [ErrorKind::ValidateMetaNameValueNotSupport]);
    let found = extract_meta_validator(
        &Shape::Scalar,
        &Ok(Meta::List(validate(vec![nested_name_value("maximum", integer(3))]))),
        &FUNCTIONS,
        &patterns(),
    );
    assert!(matches!(check_of(found.unwrap()).constraint, Constraint::Maximum(_)));
    let errors = extract_meta_validator(
        &Shape::Scalar,
        &Ok(Meta::List(validate(vec![]))),
        &FUNCTIONS,
        &patterns(),
    )
    .err()
    .unwrap();
    assert_eq!(kinds(&errors), [ErrorKind::ValidateNeedValidator]);
    assert_eq!(errors[0].message(), "it needs at least one validator");
    let errors = extract_meta_validator(
        &Shape::Scalar,
        &Err("expected `,`".to_owned()),
        &FUNCTIONS,
        &patterns(),
    )
    .err()
    .unwrap();
    assert_eq!(kinds(&errors), [ErrorKind::ValidateAttributeParseError]);
    assert_eq!(errors[0].message(), "#[validate] parse error: expected `,`");
}

#[test]
fn attribute_by_itself_declares_its_first_item_alone() {
    let read = |nested: Vec<NestedMeta>| {
        extract_meta_validator(
            &Shape::Scalar,
            &Ok(Meta::List(validate(nested))),
            &FUNCTIONS,
            &patterns(),
        )
    };
    let check = check_of(
        read(vec![
            nested_name_value("minimum", integer(1)),
            nested_name_value("message", text("too small")),
        ])
        .unwrap(),
    );
    assert!(matches!(check.constraint, Constraint::Minimum(Number::I64(1))));
    assert!(matches!(check.message, MessageSource::Default));
    let check = check_of(read(vec![nested_name_value("minimum", integer(1)), path("message")]).unwrap());
    assert!(matches!(check.constraint, Constraint::Minimum(Number::I64(1))));
    let check = check_of(
        read(vec![
            nested_name_value("max_length", integer(4)),
            nested_name_value("message", text("a")),
            nested_name_value("message", text("b")),
        ])
        .unwrap(),
    );
    assert!(matches!(check.constraint, Constraint::MaxLength(4)));
    assert!(matches!(check.message, MessageSource::Default));
    let errors = read(vec![NestedMeta::Lit(integer(1)), path("minimum")]).err().unwrap();
    assert_eq!(kinds(&errors), [ErrorKind::ValidateMetaLiteralNotSupport]);
    let errors = read(vec![
        nested_name_value("minimun", integer(1)),
        nested_name_value("message", text("a")),
        nested_name_value("message", text("b")),
    ])
    .err()
    .unwrap();
    assert_eq!(kinds(&errors), [ErrorKind::ValidateUnknownType]);
}

#[test]
fn collected_attribute_keeps_the_message_of_its_list() {
    let read = |nested: Vec<NestedMeta>| {
        extract_attribute_validator(
            &Shape::Scalar,
            &Ok(Meta::List(validate(nested))),
            &FUNCTIONS,
            &patterns(),
        )
    };
    let check = check_of(
        read(vec![
            nested_name_value("minimum", integer(1)),
            nested_name_value("message", text("too small")),
        ])
        .unwrap(),
    );
    assert!(matches!(&check.message, MessageSource::Text(text) if text == "too small"));
    assert_eq!(kinds(&read(vec![]).err().unwrap()), [ErrorKind::ValidateNeedType]);
    let bare = extract_attribute_validator(
        &Shape::Scalar,
        &Ok(Meta::Path("validate".to_owned())),
        &FUNCTIONS,
        &patterns(),
    );
    assert!(matches!(check_of(bare.unwrap()).constraint, Constraint::Nested));
}

fn attribute(name: &str, nested: Vec<NestedMeta>) -> Attribute {
    Attribute { path: name.to_owned(), meta: Ok(Meta::List(list(name, nested))) }
}

fn places(faults: &[Located]) -> Vec<(usize, usize, ErrorKind)> {
    faults.iter().map(|fault| (fault.field, fault.attribute, fault.error.kind)).collect()
}

#[test]
fn fields_collect_their_validators() {
    let fields = vec![
        FieldDeclaration {
            name: "age".to_owned(),
            shape: Shape::Scalar,
            attrs: vec![
                attribute("serde", vec![nested_name_value("rename", text("years"))]),
                attribute("validate", vec![nested_name_value("minimum", integer(18))]),
                attribute(
                    "validate",
                    vec![
                        nested_list("custom", vec![path("is_even")]),
                    ],
                ),
            ],
        },
        FieldDeclaration {
            name: "tags".to_owned(),
            shape: Shape::Sequence(Box::new(Shape::Scalar)),
            attrs: vec![
                attribute("validate", vec![nested_name_value("min_length", integer(3))]),
                attribute("validate", vec![nested_name_value("max_items", integer(2))]),
            ],
        },
        FieldDeclaration { name: "note".to_owned(), shape: Shape::Scalar, attrs: vec![] },
    ];
    let all = collect_validators(&fields, &FUNCTIONS, &patterns()).unwrap();
    assert_eq!(all.len(), 3);
    assert_eq!(all[0].validators.len(), 2);
    assert!(matches!(all[0].validators[1].constraint, Constraint::Custom(1)));
    assert_eq!(all[1].validators.len(), 1);
    assert!(matches!(all[1].validators[0].constraint, Constraint::MaxItems(2)));
    let elements = all[1].array_validators.as_ref().unwrap();
    assert!(matches!(elements.validators[0].constraint, Constraint::MinLength(3)));
    assert!(all[2].validators.is_empty());
    assert!(all[2].array_validators.is_none());
}

#[test]
fn fields_report_the_faults_of_all_fields() {
    let fields = vec![
        FieldDeclaration {
            name: "age".to_owned(),
            shape: Shape::Scalar,
            attrs: vec![
                attribute("serde", vec![]),
                attribute("validate", vec![]),
                attribute("validate", vec![nested_name_value("minimum", integer(18))]),
                Attribute {
                    path: "validate".to_owned(),
                    meta: Err("unexpected token".to_owned()),
                },
                Attribute { path: "doc".to_owned(), meta: Err("unexpected token".to_owned()) },
            ],
        },
        FieldDeclaration {
            name: "tags".to_owned(),
            shape: Shape::Scalar,
            attrs: vec![attribute(
                "validate",
                vec![path("unique"), path("message"), path("message")],
            )],
        },
    ];
    let faults = collect_validators(&fields, &FUNCTIONS, &patterns()).err().unwrap();
    assert_eq!(
        places(&faults),
        [
            (0, 1, ErrorKind::ValidateNeedType),
            (0, 3, ErrorKind::ValidateAttributeParseError),
            (1, 0, ErrorKind::TooManyListItems),
            (1, 0, ErrorKind::TooManyListItems),
            (1, 0, ErrorKind::ValidateUnknownType),
        ]
    );
    assert_eq!(faults[1].error.message(), "#[validate] parse error: unexpected token");
}

#[test]
fn declared_fields_are_validated() {
    fn predicates(id: usize, value: &Value) -> Result<(), String> {
        match (id, value) {
            (0, Value::Text(text)) if !text.ends_with("@gmail.com") => Err("gmail".to_owned()),
            (1, Value::Number(number)) if !number.is_multiple_of(&Number::U8(2)) => {
                Err("is odd".to_owned())
            }
            _ => Ok(()),
        }
    }
    fn messages(_id: usize, error: &Violation) -> String {
        error.message().unwrap_or("").to_uppercase()
    }
    let fields = vec![
        FieldDeclaration {
            name: "age".to_owned(),
            shape: Shape::Scalar,
            attrs: vec![
                attribute(
                    "validate",
                    vec![
                        nested_name_value("minimum", integer(18)),
                        nested_list("message_fn", vec![path("shout")]),
                    ],
                ),
                attribute("validate", vec![nested_list("custom", vec![path("is_even")])]),
            ],
        },
        FieldDeclaration {
            name: "mails".to_owned(),
            shape: Shape::Sequence(Box::new(Shape::Scalar)),
            attrs: vec![attribute(
                "validate",
                vec![
                    nested_list("format", vec![path("gmail")]),
                    nested_name_value("message", text("not gmail")),
                ],
            )],
        },
    ];
    let mut validators = collect_validators(&fields, &FUNCTIONS, &patterns()).unwrap();
    let mails = validators.pop().unwrap();
    let age = validators.pop().unwrap();
    let person = Value::Nested(Record {
        kind: RecordKind::Named,
        fields: vec![
            Field { name: "age", value: Value::Number(Number::I32(15)), validators: age },
            Field {
                name: "mails",
                value: Value::Sequence(vec![
                    Value::Text("a@gmail.com".to_owned()),
                    Value::Text("a@outlook.com".to_owned()),
                ]),
                validators: mails,
            },
        ],
        rules: vec![],
    });
    let context: Context<fn(usize, &Value) -> Result<(), String>, fn(usize, &Violation) -> String> =
        Context::new(predicates, messages);
    assert_eq!(
        person.validate(&context).unwrap_err().to_text(),
        r#"{"age":["THE NUMBER MUST BE `>= 18`.","is odd"],"mails":[{"1":{"errors":["not gmail"]}}]}"#
    );
}

#[test]
fn rename_is_searched_in_the_first_list() {
    let items = vec![
        path("default"),
        nested_name_value("alias", text("a")),
        nested_name_value("rename", integer(1)),
        nested_name_value("rename", text("years")),
        nested_name_value("rename", text("later")),
    ];
    assert_eq!(find_original_field_name(&items), Some("years"));
    assert_eq!(find_original_field_name(&vec![path("default")]), None);
    assert_eq!(find_original_field_name(&vec![]), None);
    let nested = vec![
        path("default"),
        nested_list("serde", vec![nested_name_value("rename", text("inner"))]),
        nested_name_value("rename", text("outer")),
    ];
    assert_eq!(find_original_field_name(&nested), Some("inner"));
    let decided = vec![
        nested_list("serde", vec![path("default")]),
        nested_name_value("rename", text("outer")),
    ];
    assert_eq!(find_original_field_name(&decided), None);
}

#[test]
fn rename_search_knows_when_it_meets_a_literal() {
    assert!(!reaches_literal(&vec![]));
    assert!(!reaches_literal(&vec![path("default"), nested_name_value("rename", text("a"))]));
    assert!(reaches_literal(&vec![path("default"), NestedMeta::Lit(integer(1))]));
    let found_before = vec![
        nested_name_value("rename", text("years")),
        NestedMeta::Lit(integer(1)),
    ];
    assert!(!reaches_literal(&found_before));
    assert_eq!(find_original_field_name(&found_before), Some("years"));
    let decided_by_list = vec![
        nested_list("serde", vec![path("default")]),
        NestedMeta::Lit(integer(1)),
    ];
    assert!(!reaches_literal(&decided_by_list));
    assert_eq!(find_original_field_name(&decided_by_list), None);
    let inside_list = vec![nested_list("serde", vec![NestedMeta::Lit(integer(1))])];
    assert!(reaches_literal(&inside_list));
    let not_a_text = vec![nested_name_value("rename", integer(1)), NestedMeta::Lit(integer(1))];
    assert!(reaches_literal(&not_a_text));
}

#[test]
fn functions_are_numbered_in_the_order_of_first_naming() {
    let fields = vec![
        FieldDeclaration {
            name: "a".to_owned(),
            shape: Shape::Scalar,
            attrs: vec![
                attribute("validate", vec![nested_list("custom", vec![path("is_even")])]),
                attribute("serde", vec![nested_list("custom", vec![path("ignored")])]),
                attribute(
                    "validate",
                    vec![
                        nested_list("format", vec![path("gmail")]),
                        nested_list("message_fn", vec![path("shout")]),
                    ],
                ),
                Attribute { path: "validate".to_owned(), meta: Err("unreadable".to_owned()) },
                Attribute { path: "validate".to_owned(), meta: Ok(Meta::Path("validate".to_owned())) },
            ],
        },
        FieldDeclaration {
            name: "b".to_owned(),
            shape: Shape::Scalar,
            attrs: vec![
                attribute(
                    "validate",
                    vec![
                        nested_list("custom", vec![path("gmail"), NestedMeta::Lit(integer(1))]),
                        path("bare"),
                        nested_list("message_fn", vec![path("is_even"), path("last")]),
                    ],
                ),
                attribute(
                    "validate",
                    vec![nested_list(
                        "custom",
                        vec![
                            nested_list("with_arguments", vec![path("argument")]),
                            nested_name_value("named", integer(1)),
                        ],
                    )],
                ),
            ],
        },
    ];
    assert_eq!(
        declared_functions(&fields),
        ["is_even", "gmail", "shout", "last", "with_arguments"]
    );
    let functions = declared_functions(&fields);
    let found = extract_generic_custom_validator(
        &list("custom", vec![nested_list("with_arguments", vec![path("argument")])]),
        &functions,
    );
    assert!(matches!(check_of(found.unwrap()).constraint, Constraint::Custom(4)));
    assert!(declared_functions(&vec![]).is_empty());
}

#[test]
fn names_are_added_once() {
    let mut names = vec!["a", "b"];
    assert!(has_name(&names, "a"));
    assert!(!has_name(&names, "c"));
    add_name(&mut names, "b");
    assert_eq!(names, ["a", "b"]);
    add_name(&mut names, "c");
    assert_eq!(names, ["a", "b", "c"]);
}

fn pattern_fields() -> Vec<FieldDeclaration> {
    vec![
        FieldDeclaration {
            name: "a".to_owned(),
            shape: Shape::Scalar,
            attrs: vec![
                attribute("serde", vec![nested_name_value("pattern", text("^s$"))]),
                attribute("validate", vec![nested_name_value("pattern", text("^a+$"))]),
                attribute("validate", vec![nested_name_value("pattern", integer(1))]),
                attribute("validate", vec![nested_name_value("minimum", text("^m$"))]),
                attribute("validate", vec![]),
            ],
        },
        FieldDeclaration {
            name: "b".to_owned(),
            shape: Shape::Scalar,
            attrs: vec![
                attribute("validate", vec![nested_name_value("pattern", text("(unclosed"))]),
                attribute(
                    "validate",
                    vec![
                        nested_name_value("pattern", text("^a+$")),
                        nested_name_value("pattern", text("^second$")),
                    ],
                ),
                attribute("validate", vec![nested_name_value("pattern", text("^b$"))]),
            ],
        },
    ]
}

#[test]
fn patterns_are_found_where_they_are_declared() {
    let fields = pattern_fields();
    let uses: Vec<(usize, usize, &str)> = declared_patterns(&fields)
        .iter()
        .map(|place| (place.field, place.attribute, place.source))
        .collect();
    assert_eq!(uses, [(0, 1, "^a+$"), (1, 0, "(unclosed"), (1, 1, "^a+$"), (1, 2, "^b$")]);
    assert_eq!(pattern_of(&fields[0].attrs[1]), Some("^a+$"));
    assert_eq!(pattern_of(&fields[0].attrs[0]), None);
    assert_eq!(pattern_of(&fields[0].attrs[2]), None);
    assert_eq!(pattern_of(&fields[0].attrs[4]), None);
}

#[test]
fn patterns_are_compiled_once_and_refusals_are_reported_in_place() {
    let fields = pattern_fields();
    let (cache, refused) = compile_patterns(&declared_patterns(&fields));
    assert_eq!(cache.len(), 2);
    assert_eq!(cache.find("^a+$"), Some(0));
    assert_eq!(cache.find("^b$"), Some(1));
    assert_eq!(cache.find("(unclosed"), None);
    assert_eq!(places(&refused), [(1, 0, ErrorKind::PatternNotCompiled)]);
    assert_eq!(refused[0].error.message(), "The pattern \"(unclosed\" could not be compiled.");
    let (cache, refused) = compile_patterns(&vec![]);
    assert_eq!(cache.len(), 0);
    assert!(refused.is_empty());
}

#[test]
fn declared_tables_serve_the_collection() {
    let fields = vec![FieldDeclaration {
        name: "word".to_owned(),
        shape: Shape::Optional(Box::new(Shape::Scalar)),
        attrs: vec![
            attribute(
                "validate",
                vec![
                    nested_name_value("pattern", text("^[a-z]+$")),
                    nested_list("message_fn", vec![path("shout")]),
                ],
            ),
            attribute("validate", vec![nested_list("custom", vec![path("is_even")])]),
        ],
    }];
    let functions = declared_functions(&fields);
    assert_eq!(functions, ["shout", "is_even"]);
    let (patterns, refused) = compile_patterns(&declared_patterns(&fields));
    assert!(refused.is_empty());
    let validators = collect_validators(&fields, &functions, &patterns).unwrap();
    assert_eq!(validators.len(), 1);
    assert!(matches!(validators[0].validators[0].constraint, Constraint::Custom(1)));
    let level = validators[0].optional_validators.as_ref().unwrap();
    assert!(matches!(&level.validators[0].constraint, Constraint::Pattern(p) if p.as_str() == "^[a-z]+$"));
    assert!(matches!(level.validators[0].message, MessageSource::Function(0)));
}

#[test]
fn unnamed_field_is_named_by_its_position() {
    let field = UnnamedField::new(
        0,
        Shape::Scalar,
        vec![attribute("validate", vec![nested_name_value("minimum", integer(1))])],
    );
    assert_eq!(field.index, 0);
    assert_eq!(field.ident, "_0");
    assert_eq!(field.field.name, "0");
    assert!(matches!(field.field.shape, Shape::Scalar));
    assert_eq!(field.field.attrs.len(), 1);
    let field = UnnamedField::new(12, Shape::Sequence(Box::new(Shape::Nested)), vec![]);
    assert_eq!(field.ident, "_12");
    assert_eq!(field.field.name, "12");
    assert!(matches!(&field.field.shape, Shape::Sequence(inner) if matches!(**inner, Shape::Nested)));
}

#[test]
fn field_type_is_named_as_it_is_written() {
    assert_eq!(get_field_type(&FieldType::Path("Vec < u8 >".to_owned())), "Vec < u8 >");
    assert_eq!(
        get_field_type(&FieldType::Reference { lifetime: true, elem: "str".to_owned() }),
        "&str"
    );
    assert_eq!(
        get_field_type(&FieldType::Reference { lifetime: false, elem: "str".to_owned() }),
        "str"
    );
}

#[test]
fn pattern_without_a_message_goes_to_the_values_of_the_shape() {
    let shape = Shape::Sequence(Box::new(Shape::Optional(Box::new(Shape::Scalar))));
    let found =
        extract_string_pattern_validator_from_meta_name_value(&shape, &text("^a+$"), &patterns())
            .unwrap();
    let check = match found {
        Validator::Array(elements) => match *elements {
            Validator::Option(content) => check_of(*content),
            _ => panic!("a check on the content of the elements was expected"),
        },
        _ => panic!("a check on the elements was expected"),
    };
    assert!(matches!(&check.constraint, Constraint::Pattern(pattern) if pattern.as_str() == "^a+$"));
    assert!(matches!(check.message, MessageSource::Default));
    let errors = extract_string_pattern_validator_from_meta_name_value(
        &Shape::Scalar,
        &text("^unknown$"),
        &patterns(),
    )
    .err()
    .unwrap();
    assert_eq!(kinds(&errors), [ErrorKind::PatternNotFound]);
}

#[test]
fn rename_is_searched_in_the_serde_attributes() {
    let found = |attrs: Vec<Attribute>| match find_rename(&attrs) {
        Rename::Found(name) => Some(name.to_owned()),
        Rename::Absent => None,
        Rename::Literal => Some("<literal>".to_owned()),
    };
    assert_eq!(found(vec![]), None);
    assert_eq!(
        found(vec![
            attribute("validate", vec![nested_name_value("rename", text("v"))]),
            attribute("serde", vec![path("default")]),
            Attribute { path: "serde".to_owned(), meta: Err("unreadable".to_owned()) },
            Attribute { path: "serde".to_owned(), meta: Ok(Meta::Path("serde".to_owned())) },
            attribute("serde", vec![path("default"), nested_name_value("rename", text("years"))]),
            attribute("serde", vec![nested_name_value("rename", text("later"))]),
        ]),
        Some("years".to_owned())
    );
    assert_eq!(
        found(vec![
            attribute("serde", vec![nested_name_value("rename", integer(1))]),
            attribute("serde", vec![NestedMeta::Lit(text("x"))]),
            attribute("serde", vec![nested_name_value("rename", text("late"))]),
        ]),
        Some("<literal>".to_owned())
    );
    assert_eq!(
        found(vec![attribute(
            "serde",
            vec![nested_list("inner", vec![nested_name_value("rename", text("deep"))])]
        )]),
        Some("deep".to_owned())
    );
}

#[test]
fn shape_follows_the_form_of_the_type() {
    let named = |name: &str, argument: Option<TypeForm>| TypeForm::Path {
        name: name.to_owned(),
        argument: argument.map(Box::new),
    };
    assert!(matches!(shape_of(&named("u8", None)), Shape::Scalar));
    assert!(matches!(shape_of(&named("Option", None)), Shape::Scalar));
    assert!(matches!(shape_of(&named("Box", Some(named("u8", None)))), Shape::Scalar));
    assert!(matches!(shape_of(&TypeForm::Other), Shape::Scalar));
    let optional = shape_of(&named("Option", Some(named("Vec", Some(named("u8", None))))));
    assert!(matches!(&optional, Shape::Optional(inner)
        if matches!(&**inner, Shape::Sequence(element) if matches!(**element, Shape::Scalar))));
    let array = shape_of(&TypeForm::Array(Box::new(named("Option", Some(named("u8", None))))));
    assert!(matches!(&array, Shape::Sequence(inner)
        if matches!(&**inner, Shape::Optional(content) if matches!(**content, Shape::Scalar))));
    let slice = shape_of(&TypeForm::Reference(Box::new(TypeForm::Slice(Box::new(TypeForm::Other)))));
    assert!(matches!(&slice, Shape::Sequence(inner) if matches!(**inner, Shape::Scalar)));
}

#[test]
fn refusal_is_reported_at_the_place_of_the_pattern() {
    let place = PatternUse { field: 2, attribute: 5, source: "(" };
    let mut refused: Vec<Located> = Vec::new();
    report_refusal(&mut refused, &place, true);
    assert!(refused.is_empty());
    report_refusal(&mut refused, &place, false);
    assert_eq!(places(&refused), [(2, 5, ErrorKind::PatternNotCompiled)]);
    assert_eq!(refused[0].error.message(), "The pattern \"(\" could not be compiled.");
}
