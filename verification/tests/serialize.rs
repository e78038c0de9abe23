use serde_valid::json::Json;
use serde_valid::validation::{ArrayErrors, Error, Errors, MapErrors, ObjectErrors};

fn custom(text: &str) -> Error {
    Error::Custom(text.to_owned())
}

fn to_value(json: &Json) -> serde_json::Value {
    match json {
        Json::Text(text) => serde_json::Value::String(text.clone()),
        Json::Array(items) => serde_json::Value::Array(items.iter().map(to_value).collect()),
        Json::Object(members) => {
            let mut object = serde_json::Map::new();
            for (name, value) in members {
                object.insert(name.clone(), to_value(value));
            }
            serde_json::Value::Object(object)
        }
    }
}

#[test]
fn json_text_is_compact() {
    let json = Json::Object(vec![
        ("b".to_owned(), Json::Array(vec![Json::Text("x".to_owned()), Json::Text("y".to_owned())])),
        ("a".to_owned(), Json::Object(vec![])),
        ("c".to_owned(), Json::Array(vec![])),
    ]);
    assert_eq!(json.to_text(), r#"{"b":["x","y"],"a":{},"c":[]}"#);
    let mut out = String::from("> ");
    Json::Text("x".to_owned()).write(&mut out);
    assert_eq!(out, r#"> "x""#);
}

#[test]
fn json_text_escapes_as_serde_json_does() {
    let text = "quote \" backslash \\ newline \n tab \t bell \u{0007} e-acute \u{00E9} smile \u{1F600}";
    let json = Json::Object(vec![(text.to_owned(), Json::Text(text.to_owned()))]);
    assert_eq!(json.to_text(), serde_json::to_string(&to_value(&json)).unwrap());
    assert_eq!(Json::Text("a\"b".to_owned()).to_text(), r#""a\"b""#);
    assert_eq!(Json::Text(String::new()).to_text(), r#""""#);
}

#[test]
fn json_text_writes_each_escape() {
    let quoted = |text: &str| Json::Text(text.to_owned()).to_text();
    assert_eq!(quoted("\""), "\"\\\"\"");
    assert_eq!(quoted("\\"), "\"\\\\\"");
    assert_eq!(quoted("\u{8}\t\n\u{c}\r"), "\"\\b\\t\\n\\f\\r\"");
    assert_eq!(quoted("\u{0}\u{1}\u{b}\u{e}"), "\"\\u0000\\u0001\\u000b\\u000e\"");
    assert_eq!(quoted("\u{10}\u{1a}\u{1f}"), "\"\\u0010\\u001a\\u001f\"");
    assert_eq!(quoted(" /\u{7f}\u{80}\u{e9}"), "\" /\u{7f}\u{80}\u{e9}\"");
}

#[test]
fn new_type_errors_are_an_object_with_errors() {
    let errors = Errors::NewType(vec![custom("a"), custom("b")]);
    assert_eq!(errors.to_text(), r#"{"errors":["a","b"]}"#);
    assert_eq!(Errors::NewType(vec![]).to_text(), r#"{"errors":[]}"#);
}

#[test]
fn object_errors_pass_their_fields_through() {
    let mut map = MapErrors::new();
    map.push("name", custom("n1"));
    map.push("age", custom("a1"));
    map.push("name", custom("n2"));
    assert_eq!(map.to_json().to_text(), r#"{"name":["n1","n2"],"age":["a1"]}"#);
    let errors = Errors::Object(ObjectErrors::new(vec![], map));
    assert_eq!(errors.to_text(), r#"{"name":["n1","n2"],"age":["a1"]}"#);
}

#[test]
fn object_errors_put_their_own_errors_under_errors() {
    let mut map = MapErrors::new();
    map.push("name", custom("n1"));
    let errors = Errors::Object(ObjectErrors::new(vec![custom("w")], map));
    assert_eq!(errors.to_text(), r#"{"name":["n1"],"errors":["w"]}"#);
    let errors = Errors::Object(ObjectErrors::new(vec![], MapErrors::new()));
    assert_eq!(errors.to_text(), "{}");
}

#[test]
fn array_errors_are_keyed_by_index() {
    let errors = Errors::Array(ArrayErrors::new(
        vec![custom("w")],
        vec![(0, Errors::NewType(vec![custom("x")])), (12, Errors::NewType(vec![custom("y")]))],
    ));
    assert_eq!(
        errors.to_text(),
        r#"{"items":["w"],"0":{"errors":["x"]},"12":{"errors":["y"]}}"#
    );
    let errors = Errors::Array(ArrayErrors::new(
        vec![],
        vec![(3, Errors::NewType(vec![custom("x")]))],
    ));
    assert_eq!(errors.to_text(), r#"{"3":{"errors":["x"]}}"#);
}

#[test]
fn nested_aggregates_are_serialized_in_place() {
    let mut inner = MapErrors::new();
    inner.push("street", custom("s"));
    let mut map = MapErrors::new();
    map.push("address", Error::Properties(ObjectErrors::new(vec![], inner)));
    map.push(
        "tags",
        Error::Items(ArrayErrors::new(vec![], vec![(1, Errors::NewType(vec![custom("t")]))])),
    );
    let errors = Errors::Object(ObjectErrors::new(vec![], map));
    assert_eq!(
        errors.to_text(),
        r#"{"address":[{"street":["s"]}],"tags":[{"1":{"errors":["t"]}}]}"#
    );
    assert_eq!(errors.to_text(), serde_json::to_string(&to_value(&errors.to_json())).unwrap());
}

#[test]
fn message_is_serialized_as_its_text() {
    let json = serde_valid::validation::error::serialize::serialize_error_message("a \"b\"");
    assert!(matches!(&json, Json::Text(text) if text == "a \"b\""));
    assert_eq!(json.to_text(), r#""a \"b\"""#);
    assert_eq!(custom("c").to_json().to_text(), r#""c""#);
    assert_eq!(custom("c").with_text("d".to_owned()).to_json().to_text(), r#""d""#);
}
