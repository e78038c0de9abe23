use serde_valid::error::{Message, ToDefaultMessage};
use serde_valid::validation::{Error, Errors, MapErrors, ObjectErrors};
use serde_valid::validator::{Check, Constraint, FieldValidators, Shape, Validator};
use serde_valid::value::{Field, Record, RecordKind, Value};
use serde_valid::walker::Context;
use serde_valid::{FormatErrorParams, Validate, ValidateFormat};

fn gmail(gmail: &str) -> Result<(), String> {
    if gmail.ends_with("@gmail.com") {
        Ok(())
    } else {
        Err("gmail".to_owned())
    }
}

fn path(path: &std::path::Path) -> Result<(), String> {
    if path == std::path::PathBuf::from("/tmp/user.json") {
        Ok(())
    } else {
        Err("path".to_owned())
    }
}

fn predicates(_id: usize, value: &Value) -> Result<(), String> {
    match value {
        Value::Text(text) => gmail(text),
        _ => Err("gmail".to_owned()),
    }
}

fn error_message(_id: usize, _error: &Error) -> String {
    "this is custom message.".to_string()
}

fn context() -> Context<fn(usize, &Value) -> Result<(), String>, fn(usize, &Error) -> String> {
    Context::new(predicates, error_message)
}

fn report(field: &'static str, checked: Result<(), FormatErrorParams>) -> Result<(), Errors> {
    let mut errors = MapErrors::new();
    if let Err(params) = checked {
        errors.push(
            field,
            Error::Format(Message::new(params, FormatErrorParams::to_default_message)),
        );
    }
    if errors.is_empty() {
        Ok(())
    } else {
        Err(Errors::Object(ObjectErrors::new(vec![], errors)))
    }
}

fn text(value: &str) -> Value {
    Value::Text(String::from(value))
}

fn some(value: Value) -> Value {
    Value::Optional(Some(Box::new(value)))
}

fn sequence_of(shape: Shape) -> Shape {
    Shape::Sequence(Box::new(shape))
}

fn optional_of(shape: Shape) -> Shape {
    Shape::Optional(Box::new(shape))
}

fn with_format(value: Value, shape: Shape) -> Value {
    let mut validators = FieldValidators::new(shape.clone());
    validators.push(Validator::new(Check::new(Constraint::Format(0)), &shape));
    Value::Nested(Record {
        kind: RecordKind::Named,
        fields: vec![Field { name: "val", value, validators }],
        rules: vec![],
    })
}

fn expected_report(message: &str) -> String {
    let mut object = serde_json::Map::new();
    object.insert(
        "val".to_owned(),
        serde_json::Value::Array(vec![serde_json::Value::String(message.to_owned())]),
    );
    serde_json::to_string(&serde_json::Value::Object(object)).unwrap()
}

#[test]
fn format_string_type() {
    struct TestStruct {
        val: String,
    }

    impl Validate for TestStruct {
        fn validate(&self) -> Result<(), Errors> {
            report("val", self.val.validate_format(gmail))
        }
    }

    let s = TestStruct {
        val: String::from("your@gmail.com"),
    };

    assert!(s.validate().is_ok());
}

#[test]
fn format_str_type() {
    struct TestStruct<'a> {
        val: &'a str,
    }

    impl<'a> Validate for TestStruct<'a> {
        fn validate(&self) -> Result<(), Errors> {
            report("val", self.val.validate_format(gmail))
        }
    }

    let s = TestStruct {
        val: "your@gmail.com",
    };

    assert!(s.validate().is_ok());
}

#[test]
fn format_cow_str_type() {
    struct TestStruct<'a> {
        val: std::borrow::Cow<'a, str>,
    }

    impl<'a> Validate for TestStruct<'a> {
        fn validate(&self) -> Result<(), Errors> {
            report("val", self.val.validate_format(gmail))
        }
    }

    let s = TestStruct {
        val: std::borrow::Cow::from("your@gmail.com"),
    };

    assert!(s.validate().is_ok());
}

#[test]
fn format_path_type() {
    struct TestStruct<'a> {
        val: &'a std::path::Path,
    }

    impl<'a> Validate for TestStruct<'a> {
        fn validate(&self) -> Result<(), Errors> {
            report("val", self.val.validate_format(path))
        }
    }

    let s = TestStruct {
        val: std::path::Path::new("/tmp/user.json"),
    };
    assert!(s.validate().is_ok());
}

#[test]
fn format_path_buf_type() {
    struct TestStruct {
        val: std::path::PathBuf,
    }

    impl Validate for TestStruct {
        fn validate(&self) -> Result<(), Errors> {
            report("val", self.val.validate_format(path))
        }
    }

    let s = TestStruct {
        val: std::path::PathBuf::from("/tmp/user.json"),
    };
    assert!(s.validate().is_ok());
}

#[test]
fn format_is_err() {
    struct TestStruct {
        val: String,
    }

    impl Validate for TestStruct {
        fn validate(&self) -> Result<(), Errors> {
            report("val", self.val.validate_format(gmail))
        }
    }

    let s = TestStruct {
        val: String::from("user@outlook.com"),
    };
    assert!(s.validate().is_err());
}

#[test]
fn format_vec_type_is_ok() {
    let s = with_format(
        Value::Sequence(vec![text("user@gmail.com"), text("you@gmail.com")]),
        sequence_of(Shape::Scalar),
    );
    assert!(s.validate(&context()).is_ok());
}

#[test]
fn format_nested_vec_type_is_ok() {
    let s = with_format(
        Value::Sequence(vec![
            Value::Sequence(vec![text("user@gmail.com"), text("admin@gmail.com")]),
            Value::Sequence(vec![text("me@gmail.com"), text("you@gmail.com")]),
        ]),
        sequence_of(sequence_of(Shape::Scalar)),
    );
    assert!(s.validate(&context()).is_ok());
}

#[test]
fn format_option_type_is_ok() {
    let s = with_format(some(text("user@gmail.com")), optional_of(Shape::Scalar));
    assert!(s.validate(&context()).is_ok());
}

#[test]
fn format_nested_option_type_is_ok() {
    let s = with_format(
        some(some(text("user@gmail.com"))),
        optional_of(optional_of(Shape::Scalar)),
    );
    assert!(s.validate(&context()).is_ok());
}

#[test]
fn format_vec_optional_type_is_ok() {
    let s = with_format(
        Value::Sequence(vec![
            some(text("user@gmail.com")),
            some(text("admin@gmail.com")),
            Value::Optional(None),
        ]),
        sequence_of(optional_of(Shape::Scalar)),
    );
    assert!(s.validate(&context()).is_ok());
}

#[test]
fn format_err_message() {
    struct TestStruct {
        val: String,
    }

    impl Validate for TestStruct {
        fn validate(&self) -> Result<(), Errors> {
            report("val", self.val.validate_format(gmail))
        }
    }

    let s = TestStruct {
        val: String::from("user@outlook.com"),
    };

    assert_eq!(
        s.validate().unwrap_err().to_text(),
        expected_report("The value does not follow the \"gmail\" format.")
    );
}

#[test]
fn format_custom_err_message_fn() {
    fn error_message(_params: &serde_valid::FormatErrorParams) -> String {
        "this is custom message.".to_string()
    }

    struct TestStruct {
        val: String,
    }

    impl Validate for TestStruct {
        fn validate(&self) -> Result<(), Errors> {
            let mut errors = MapErrors::new();
            if let Err(params) = self.val.validate_format(gmail) {
                errors.push("val", Error::Format(Message::new(params, error_message)));
            }
            if errors.is_empty() {
                Ok(())
            } else {
                Err(Errors::Object(ObjectErrors::new(vec![], errors)))
            }
        }
    }

    let s = TestStruct {
        val: String::from("user@outlook.com"),
    };

    assert_eq!(
        s.validate().unwrap_err().to_text(),
        expected_report("this is custom message.")
    );
}

#[test]
fn format_custom_err_message() {
    let mut validators = FieldValidators::new(Shape::Scalar);
    validators.push(Validator::new(
        Check::with_message(Constraint::Format(0), "this is custom message."),
        &Shape::Scalar,
    ));
    let s = Value::Nested(Record {
        kind: RecordKind::Named,
        fields: vec![Field { name: "val", value: text("user@outlook.com"), validators }],
        rules: vec![],
    });

    assert_eq!(
        s.validate(&context()).unwrap_err().to_text(),
        expected_report("this is custom message.")
    );
}

#[test]
fn format_trait() {
    struct MyType(String);

    impl ValidateFormat<str> for MyType {
        fn validate_format<F: FnOnce(&str) -> Result<(), String>>(
            &self,
            validate_fn: F,
        ) -> Result<(), serde_valid::FormatErrorParams> {
            self.0.validate_format(validate_fn)
        }
    }

    struct TestStruct {
        val: MyType,
    }

    impl Validate for TestStruct {
        fn validate(&self) -> Result<(), Errors> {
            report("val", self.val.validate_format(gmail))
        }
    }

    let s = TestStruct {
        val: MyType(String::from("user@gmail.com")),
    };

    assert!(s.validate().is_ok());
}

#[test]
fn format_is_reported_by_the_walk_as_by_the_trait() {
    let walked = with_format(text("user@outlook.com"), Shape::Scalar)
        .validate(&context())
        .unwrap_err();
    let direct = report("val", "user@outlook.com".validate_format(gmail)).unwrap_err();
    assert_eq!(walked.to_text(), direct.to_text());
    assert_eq!(
        walked.to_text(),
        expected_report("The value does not follow the \"gmail\" format.")
    );
}
