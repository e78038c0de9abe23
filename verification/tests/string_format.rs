use serde_valid::validation::string::format::format_result;
use serde_valid::ValidateFormat;

fn validate_gmail(gmail: &str) -> Result<(), String> {
    if gmail.ends_with("@gmail.co.jp") {
        Ok(())
    } else {
        Err("gmail".to_string())
    }
}

fn json_file(path: &std::path::Path) -> Result<(), String> {
    if path.extension().map(|extension| extension == "json").unwrap_or(false) {
        Ok(())
    } else {
        Err("json file".to_string())
    }
}

#[test]
fn test_validate_string_format_str_type() {
    assert!("user@gmail.co.jp".validate_format(validate_gmail).is_ok());
}

#[test]
fn test_validate_string_format_ref_str_type() {
    assert!((&"user@gmail.co.jp")
        .validate_format(validate_gmail)
        .is_ok());
}

#[test]
fn test_validate_string_format_string_type() {
    assert!(String::from("user@gmail.co.jp")
        .validate_format(validate_gmail)
        .is_ok());
}

#[test]
fn test_validate_string_format_cow_str_type() {
    assert!(std::borrow::Cow::from("user@gmail.co.jp")
        .validate_format(validate_gmail)
        .is_ok());
}

#[test]
fn format_refusal_carries_the_name_of_the_format() {
    let params = "user@outlook.com".validate_format(validate_gmail).unwrap_err();
    assert_eq!(params.format(), "gmail");
    let params = String::from("user").validate_format(validate_gmail).unwrap_err();
    assert_eq!(params.format(), "gmail");
    let owned: std::borrow::Cow<'_, str> = std::borrow::Cow::Owned(String::from("user"));
    assert_eq!(owned.validate_format(validate_gmail).unwrap_err().format(), "gmail");
}

#[test]
fn format_result_keeps_the_answer_of_the_predicate() {
    assert!(format_result(Ok(())).is_ok());
    assert_eq!(format_result(Err("uuid".to_owned())).unwrap_err().format(), "uuid");
    assert_eq!(format_result(Err(String::new())).unwrap_err().format(), "");
}

#[test]
fn format_of_paths() {
    let path = std::path::Path::new("/tmp/user.json");
    assert!(path.validate_format(json_file).is_ok());
    assert!((&path).validate_format(json_file).is_ok());
    assert!(std::path::PathBuf::from("/tmp/user.json").validate_format(json_file).is_ok());
    assert!(std::borrow::Cow::Borrowed(path).validate_format(json_file).is_ok());
    let other = std::path::PathBuf::from("/tmp/user.toml");
    assert_eq!(other.validate_format(json_file).unwrap_err().format(), "json file");
    let owned: std::borrow::Cow<'_, std::path::Path> = std::borrow::Cow::Owned(other);
    assert_eq!(owned.validate_format(json_file).unwrap_err().format(), "json file");
}
