use serde_valid::error::{Literal, Number};
use serde_valid::validation::{Error, Errors, Pattern};
use serde_valid::validator::{Check, Constraint, FieldValidators, Shape, Validator};
use serde_valid::value::{Field, Record, RecordKind, Rule, Value};
use serde_valid::walker::Context;
use serde_valid::{Validate, Validated};

fn predicates(id: usize, value: &Value) -> Result<(), String> {
    match (id, value) {
        (0, Value::Text(text)) if text.ends_with("@gmail.com") => Ok(()),
        (0, _) => Err("gmail".to_owned()),
        (1, Value::Number(number)) if number.is_multiple_of(&Number::U8(2)) => Ok(()),
        (1, Value::Optional(None)) => Err("is unset".to_owned()),
        (1, _) => Err("is odd".to_owned()),
        (2, Value::Nested(record)) => {
            if record.fields.len() == 2 && record.fields[0].value.same(&record.fields[1].value) {
                Ok(())
            } else {
                Err("the two fields differ".to_owned())
            }
        }
        _ => Ok(()),
    }
}

fn messages(id: usize, error: &Error) -> String {
    match (id, error) {
        (0, Error::Minimum(message)) => {
            format!("{} is the least", message.error().minimum().to_text())
        }
        (0, Error::Format(message)) => format!("not a {} address", message.error().format()),
        (_, error) => format!("[{}]", error.message().unwrap_or("")),
    }
}

fn context() -> Context<fn(usize, &Value) -> Result<(), String>, fn(usize, &Error) -> String> {
    Context::new(predicates, messages)
}

fn checks(shape: Shape, constraints: Vec<Constraint>) -> FieldValidators {
    let mut validators = FieldValidators::new(shape.clone());
    for constraint in constraints {
        validators.push(Validator::new(Check::new(constraint), &shape));
    }
    validators
}

fn named(fields: Vec<Field>) -> Value {
    Value::Nested(Record { kind: RecordKind::Named, fields, rules: vec![] })
}

fn number(value: i32) -> Value {
    Value::Number(Number::I32(value))
}

fn text(value: &str) -> Value {
    Value::Text(value.to_owned())
}

fn sequence_of(shape: Shape) -> Shape {
    Shape::Sequence(Box::new(shape))
}

fn optional_of(shape: Shape) -> Shape {
    Shape::Optional(Box::new(shape))
}

fn report(value: &Value) -> String {
    match value.validate(&context()) {
        Ok(()) => String::from("ok"),
        Err(errors) => errors.to_text(),
    }
}

#[test]
fn age_below_the_minimum() {
    let person = named(vec![Field {
        name: "age",
        value: number(15),
        validators: checks(Shape::Scalar, vec![Constraint::Minimum(Number::I32(18))]),
    }]);
    let errors = person.validate(&context()).unwrap_err();
    match &errors {
        Errors::Object(object) => {
            assert!(object.errors.is_empty());
            assert_eq!(object.properties.len(), 1);
            let list = object.properties.get("age").unwrap();
            assert_eq!(list.len(), 1);
            assert!(matches!(&list[0], Error::Minimum(message)
                if message.error().minimum() == Number::I32(18)));
        }
        _ => panic!("an object result was expected"),
    }
    assert_eq!(errors.to_text(), r#"{"age":["The number must be `>= 18`."]}"#);
}

#[test]
fn age_at_the_minimum() {
    let person = named(vec![Field {
        name: "age",
        value: number(18),
        validators: checks(Shape::Scalar, vec![Constraint::Minimum(Number::I32(18))]),
    }]);
    assert!(person.validate(&context()).is_ok());
}

#[test]
fn tags_that_are_too_short() {
    let post = named(vec![Field {
        name: "tags",
        value: Value::Sequence(vec![text("ab"), text("abcd")]),
        validators: checks(sequence_of(Shape::Scalar), vec![Constraint::MinLength(3)]),
    }]);
    let errors = post.validate(&context()).unwrap_err();
    match &errors {
        Errors::Object(object) => {
            let list = object.properties.get("tags").unwrap();
            assert_eq!(list.len(), 1);
            match &list[0] {
                Error::Items(array) => {
                    assert!(array.errors.is_empty());
                    assert_eq!(array.items.len(), 1);
                    assert_eq!(array.items[0].0, 0);
                    match &array.items[0].1 {
                        Errors::NewType(found) => {
                            assert_eq!(found.len(), 1);
                            assert!(matches!(&found[0], Error::MinLength(message)
                                if message.error().min_length() == 3));
                        }
                        _ => panic!("a bare list was expected"),
                    }
                }
                _ => panic!("an array result was expected"),
            }
        }
        _ => panic!("an object result was expected"),
    }
    assert_eq!(
        errors.to_text(),
        r#"{"tags":[{"0":{"errors":["The length of the value must be `>= 3`."]}}]}"#
    );
}

#[test]
fn sequence_and_elements_fail_together() {
    let post = named(vec![Field {
        name: "tags",
        value: Value::Sequence(vec![text("abcd"), text("a"), text("a")]),
        validators: checks(
            sequence_of(Shape::Scalar),
            vec![Constraint::MaxItems(2), Constraint::MinLength(3), Constraint::UniqueItems],
        ),
    }]);
    assert_eq!(
        report(&post),
        concat_report(&[
            r#"{"tags":[{"items":["The length of the items must be `<= 2`.","The items must be unique."],"#,
            r#""1":{"errors":["The length of the value must be `>= 3`."]},"#,
            r#""2":{"errors":["The length of the value must be `>= 3`."]}}]}"#,
        ])
    );
}

fn concat_report(parts: &[&str]) -> String {
    parts.iter().map(|part| part.to_string()).collect()
}

#[test]
fn unset_optional_contributes_nothing() {
    let constraints = || {
        vec![
            Constraint::Minimum(Number::I32(18)),
            Constraint::MultipleOf(Number::I32(5)),
            Constraint::MinLength(3),
            Constraint::Format(0),
            Constraint::Enumerate(vec![Literal::Number(Number::I32(1))]),
            Constraint::MinItems(1),
        ]
    };
    let person = named(vec![Field {
        name: "age",
        value: Value::Optional(None),
        validators: checks(optional_of(Shape::Scalar), constraints()),
    }]);
    assert!(person.validate(&context()).is_ok());

    let person = named(vec![Field {
        name: "age",
        value: Value::Optional(Some(Box::new(number(7)))),
        validators: checks(optional_of(Shape::Scalar), constraints()),
    }]);
    assert_eq!(
        report(&person),
        concat_report(&[
            r#"{"age":["The number must be `>= 18`.","The value must be multiple of `5`.","#,
            r#""The value must be in [1]."]}"#,
        ])
    );
}

#[test]
fn custom_predicate_sees_the_optional_itself() {
    let person = named(vec![Field {
        name: "age",
        value: Value::Optional(None),
        validators: checks(Shape::Scalar, vec![Constraint::Custom(1)]),
    }]);
    assert_eq!(report(&person), r#"{"age":["is unset"]}"#);
}

#[test]
fn validation_is_exhaustive() {
    let person = named(vec![
        Field {
            name: "age",
            value: number(15),
            validators: checks(
                Shape::Scalar,
                vec![
                    Constraint::Minimum(Number::I32(18)),
                    Constraint::Maximum(Number::I32(10)),
                    Constraint::ExclusiveMinimum(Number::I32(15)),
                    Constraint::ExclusiveMaximum(Number::I32(15)),
                    Constraint::MultipleOf(Number::I32(4)),
                    Constraint::Custom(1),
                ],
            ),
        },
        Field {
            name: "mail",
            value: text("user@outlook.com"),
            validators: checks(
                Shape::Scalar,
                vec![
                    Constraint::MaxLength(4),
                    Constraint::Pattern(Pattern::new("^[a-z]+$").unwrap()),
                    Constraint::Format(0),
                    Constraint::Enumerate(vec![Literal::Str("a".to_owned())]),
                ],
            ),
        },
        Field { name: "name", value: text("ok"), validators: checks(Shape::Scalar, vec![]) },
    ]);
    assert_eq!(
        report(&person),
        concat_report(&[
            r#"{"age":["The number must be `>= 18`.","The number must be `<= 10`.","#,
            r#""The number must be `> 15`.","The number must be `< 15`.","#,
            r#""The value must be multiple of `4`.","is odd"],"#,
            r#""mail":["The length of the value must be `<= 4`.","#,
            r#""The value must match the pattern of \"^[a-z]+$\".","#,
            r#""The value does not follow the \"gmail\" format.","#,
            r#""The value must be in [\"a\"]."]}"#,
        ])
    );
}

#[test]
fn constraints_of_another_kind_are_passed_over() {
    let person = named(vec![
        Field {
            name: "age",
            value: number(15),
            validators: checks(
                Shape::Scalar,
                vec![
                    Constraint::MinLength(3),
                    Constraint::MinItems(3),
                    Constraint::UniqueItems,
                    Constraint::MinProperties(3),
                    Constraint::Format(0),
                    Constraint::Nested,
                    Constraint::Pattern(Pattern::new("^x$").unwrap()),
                ],
            ),
        },
        Field {
            name: "name",
            value: text("ab"),
            validators: checks(
                Shape::Scalar,
                vec![Constraint::Minimum(Number::I32(3)), Constraint::MaxItems(0)],
            ),
        },
    ]);
    assert!(person.validate(&context()).is_ok());
}

#[test]
fn nested_struct_is_reported_under_its_field() {
    let address = named(vec![Field {
        name: "street",
        value: text(""),
        validators: checks(Shape::Scalar, vec![Constraint::MinLength(1)]),
    }]);
    let person = named(vec![Field {
        name: "address",
        value: address,
        validators: checks(
            Shape::Nested,
            vec![Constraint::Nested, Constraint::MinProperties(2), Constraint::MaxProperties(0)],
        ),
    }]);
    assert_eq!(
        report(&person),
        concat_report(&[
            r#"{"address":[{"street":["The length of the value must be `>= 1`."]},"#,
            r#""The size of the properties must be `>= 2`.","#,
            r#""The size of the properties must be `<= 0`."]}"#,
        ])
    );
}

#[test]
fn nested_structs_in_a_sequence() {
    let item = |name: &str| {
        named(vec![Field {
            name: "name",
            value: text(name),
            validators: checks(Shape::Scalar, vec![Constraint::MinLength(2)]),
        }])
    };
    let order = named(vec![Field {
        name: "items",
        value: Value::Sequence(vec![item("ok"), item("x")]),
        validators: checks(sequence_of(Shape::Nested), vec![Constraint::Nested]),
    }]);
    assert_eq!(
        report(&order),
        r#"{"items":[{"1":{"errors":[{"name":["The length of the value must be `>= 2`."]}]}}]}"#
    );
}

#[test]
fn nested_sequences_and_optionals() {
    let table = named(vec![Field {
        name: "rows",
        value: Value::Sequence(vec![
            Value::Sequence(vec![
                Value::Optional(Some(Box::new(number(1)))),
                Value::Optional(None),
                Value::Optional(Some(Box::new(number(3)))),
            ]),
            Value::Sequence(vec![]),
            Value::Sequence(vec![Value::Optional(Some(Box::new(number(0))))]),
        ]),
        validators: checks(
            sequence_of(sequence_of(optional_of(Shape::Scalar))),
            vec![Constraint::Minimum(Number::I32(2)), Constraint::MinItems(1)],
        ),
    }]);
    assert_eq!(
        report(&table),
        concat_report(&[
            r#"{"rows":[{"0":{"0":{"errors":["The number must be `>= 2`."]}},"#,
            r#""2":{"0":{"errors":["The number must be `>= 2`."]}}}]}"#,
        ])
    );
}

#[test]
fn rules_are_asked_last_and_reported_under_their_key() {
    let form = Value::Nested(Record {
        kind: RecordKind::Named,
        fields: vec![
            Field {
                name: "password",
                value: text("a"),
                validators: checks(Shape::Scalar, vec![Constraint::MinLength(8)]),
            },
            Field { name: "repeated", value: text("b"), validators: checks(Shape::Scalar, vec![]) },
        ],
        rules: vec![
            Rule { key: "repeated", predicate: 2 },
            Rule { key: "password", predicate: 2 },
            Rule { key: "form", predicate: 3 },
        ],
    });
    assert_eq!(
        report(&form),
        concat_report(&[
            r#"{"password":["The length of the value must be `>= 8`.","the two fields differ"],"#,
            r#""repeated":["the two fields differ"]}"#,
        ])
    );
}

#[test]
fn new_type_struct_reports_one_list() {
    let wrapper = |value: i32| {
        Value::Nested(Record {
            kind: RecordKind::NewType,
            fields: vec![Field {
                name: "0",
                value: number(value),
                validators: checks(
                    Shape::Scalar,
                    vec![Constraint::Minimum(Number::I32(18)), Constraint::Custom(1)],
                ),
            }],
            rules: vec![],
        })
    };
    assert!(wrapper(18).validate(&context()).is_ok());
    let errors = wrapper(15).validate(&context()).unwrap_err();
    assert!(matches!(&errors, Errors::NewType(list) if list.len() == 2));
    assert_eq!(errors.to_text(), r#"{"errors":["The number must be `>= 18`.","is odd"]}"#);
}

#[test]
fn custom_message_replaces_the_default() {
    let mut validators = FieldValidators::new(Shape::Scalar);
    validators.push(Validator::new(
        Check::with_message(Constraint::Minimum(Number::I32(18)), "too young"),
        &Shape::Scalar,
    ));
    let person = named(vec![Field { name: "age", value: number(15), validators }]);
    assert_eq!(report(&person), r#"{"age":["too young"]}"#);
}

#[test]
fn message_function_renders_the_failure() {
    let mut validators = FieldValidators::new(Shape::Scalar);
    validators.push(Validator::new(
        Check::with_message_fn(Constraint::Minimum(Number::I32(18)), 0),
        &Shape::Scalar,
    ));
    validators.push(Validator::new(
        Check::with_message_fn(Constraint::Maximum(Number::I32(10)), 1),
        &Shape::Scalar,
    ));
    let mut mail = FieldValidators::new(Shape::Scalar);
    mail.push(Validator::new(Check::with_message_fn(Constraint::Format(0), 0), &Shape::Scalar));
    let person = named(vec![
        Field { name: "age", value: number(15), validators },
        Field { name: "mail", value: text("user@outlook.com"), validators: mail },
    ]);
    assert_eq!(
        report(&person),
        concat_report(&[
            r#"{"age":["18 is the least","[The number must be `<= 10`.]"],"#,
            r#""mail":["not a gmail address"]}"#,
        ])
    );
}

#[test]
fn two_validations_give_the_same_report() {
    let person = || {
        named(vec![
            Field {
                name: "age",
                value: number(15),
                validators: checks(Shape::Scalar, vec![Constraint::Minimum(Number::I32(18))]),
            },
            Field {
                name: "tags",
                value: Value::Sequence(vec![text("ab"), text("abcd"), text("")]),
                validators: checks(sequence_of(Shape::Scalar), vec![Constraint::MinLength(3)]),
            },
        ])
    };
    let first = person().validate(&context()).unwrap_err().to_text();
    let second = person().validate(&context()).unwrap_err().to_text();
    assert_eq!(first.as_bytes(), second.as_bytes());
    let value = person();
    assert_eq!(report(&value), report(&value));
    assert_eq!(report(&value), first);
}

#[test]
fn validated_value_is_a_validate() {
    let person = named(vec![Field {
        name: "age",
        value: number(15),
        validators: checks(Shape::Scalar, vec![Constraint::Minimum(Number::I32(18))]),
    }]);
    let validated = Validated::new(person, context());
    assert_eq!(
        validated.validate().unwrap_err().to_text(),
        r#"{"age":["The number must be `>= 18`."]}"#
    );
    assert!(Validated::new(number(3), context()).validate().is_ok());
}

#[test]
fn a_value_that_is_no_struct_is_accepted() {
    assert!(number(3).validate(&context()).is_ok());
    assert!(Value::Sequence(vec![text("a")]).validate(&context()).is_ok());
    assert!(Value::Optional(None).validate(&context()).is_ok());
}

#[test]
fn validators_are_pushed_to_their_level() {
    let mut validators = FieldValidators::new(sequence_of(optional_of(Shape::Scalar)));
    validators.push(Validator::Normal(Check::new(Constraint::MinItems(1))));
    validators.push(Validator::Array(Box::new(Validator::Normal(Check::new(
        Constraint::MinLength(3),
    )))));
    validators.push(Validator::Array(Box::new(Validator::Option(Box::new(Validator::Normal(
        Check::new(Constraint::MaxLength(5)),
    ))))));
    assert_eq!(validators.validators.len(), 1);
    let array = validators.array_validators.as_ref().unwrap();
    assert!(matches!(&array.shape, Shape::Optional(content)
        if matches!(&**content, Shape::Scalar)));
    assert_eq!(array.validators.len(), 1);
    assert!(matches!(array.validators[0].constraint, Constraint::MinLength(3)));
    let inner = array.optional_validators.as_ref().unwrap();
    assert!(matches!(inner.shape, Shape::Scalar));
    assert!(matches!(inner.validators[0].constraint, Constraint::MaxLength(5)));
    assert!(array.array_validators.is_none());
    assert!(validators.optional_validators.is_none());
}

#[test]
fn validator_for_a_level_that_the_shape_lacks_is_dropped() {
    let mut validators = FieldValidators::new(Shape::Scalar);
    validators.push(Validator::Option(Box::new(Validator::Normal(Check::new(
        Constraint::MinLength(3),
    )))));
    validators.push(Validator::Array(Box::new(Validator::Normal(Check::new(
        Constraint::MinLength(3),
    )))));
    assert!(validators.validators.is_empty());
    assert!(validators.optional_validators.is_none());
    assert!(validators.array_validators.is_none());

    let mut validators = FieldValidators::new(sequence_of(Shape::Scalar));
    validators.push(Validator::Option(Box::new(Validator::Normal(Check::new(
        Constraint::UniqueItems,
    )))));
    assert!(validators.optional_validators.is_none());
    validators.push(Validator::Array(Box::new(Validator::Array(Box::new(Validator::Normal(
        Check::new(Constraint::MinLength(3)),
    ))))));
    let elements = validators.array_validators.as_ref().unwrap();
    assert!(elements.validators.is_empty());
    assert!(elements.array_validators.is_none());

    let mut validators = FieldValidators::new(optional_of(Shape::Scalar));
    validators.push(Validator::Array(Box::new(Validator::Normal(Check::new(
        Constraint::MinLength(3),
    )))));
    assert!(validators.array_validators.is_none());
    validators.push(Validator::Option(Box::new(Validator::Normal(Check::new(
        Constraint::MinLength(3),
    )))));
    assert_eq!(validators.optional_validators.as_ref().unwrap().validators.len(), 1);
}

#[test]
fn validator_goes_into_a_level_that_is_there() {
    let mut level = FieldValidators::new(Shape::Scalar);
    level.push(Validator::Normal(Check::new(Constraint::MinLength(1))));
    let mut validators = FieldValidators::new(Shape::Scalar);
    validators.optional_validators = Some(Box::new(level));
    validators.push(Validator::Option(Box::new(Validator::Normal(Check::new(
        Constraint::MaxLength(9),
    )))));
    let content = validators.optional_validators.as_ref().unwrap();
    assert_eq!(content.validators.len(), 2);
    assert!(matches!(content.validators[1].constraint, Constraint::MaxLength(9)));
}

#[test]
fn validator_follows_the_declared_shape() {
    let shape = sequence_of(optional_of(Shape::Scalar));
    let on_values = Validator::new(Check::new(Constraint::MinLength(3)), &shape);
    assert!(matches!(&on_values, Validator::Array(inner)
        if matches!(&**inner, Validator::Option(check)
            if matches!(&**check, Validator::Normal(_)))));
    let on_items = Validator::new(Check::new(Constraint::MinItems(1)), &shape);
    assert!(matches!(on_items, Validator::Normal(_)));
    let optional_items = Validator::new(
        Check::new(Constraint::UniqueItems),
        &optional_of(sequence_of(Shape::Scalar)),
    );
    assert!(matches!(&optional_items, Validator::Option(inner)
        if matches!(&**inner, Validator::Normal(_))));
    assert!(Constraint::MaxItems(1).is_on_items());
    assert!(!Constraint::MaxLength(1).is_on_items());
}

#[test]
fn shape_names_what_is_inside() {
    let shape = sequence_of(optional_of(Shape::Scalar));
    assert!(shape.option_field().is_none());
    let elements = shape.array_field().unwrap();
    assert!(elements.array_field().is_none());
    assert!(matches!(elements.option_field().unwrap(), Shape::Scalar));
    assert!(Shape::Nested.array_field().is_none());
    assert!(Shape::Scalar.option_field().is_none());
}

#[test]
fn values_are_compared_by_content() {
    assert!(number(1).same(&Value::Number(Number::U64(1))));
    assert!(!number(1).same(&text("1")));
    assert!(text("a").same(&text("a")));
    assert!(Value::Bool(true).same(&Value::Bool(true)));
    assert!(!Value::Char('a').same(&Value::Char('b')));
    assert!(Value::Optional(None).same(&Value::Optional(None)));
    assert!(!Value::Optional(None).same(&Value::Optional(Some(Box::new(number(1))))));
    assert!(Value::Sequence(vec![number(1), text("a")])
        .same(&Value::Sequence(vec![number(1), text("a")])));
    assert!(!Value::Sequence(vec![number(1)]).same(&Value::Sequence(vec![number(1), number(1)])));
    assert!(!Value::Sequence(vec![number(1), number(2)])
        .same(&Value::Sequence(vec![number(1), number(3)])));
    let field = |name: &'static str, value: Value| Field {
        name,
        value,
        validators: FieldValidators::new(Shape::Scalar),
    };
    assert!(named(vec![field("a", number(1))]).same(&named(vec![field("a", number(1))])));
    assert!(!named(vec![field("a", number(1))]).same(&named(vec![field("b", number(1))])));
    assert!(!named(vec![field("a", number(1))]).same(&named(vec![field("a", number(2))])));
}
