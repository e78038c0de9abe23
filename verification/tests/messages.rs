use serde_valid::error::{Literal, Message, Number, ToDefaultMessage};
use serde_valid::{
    EnumerateErrorParams, ExclusiveMaximumErrorParams, ExclusiveMinimumErrorParams,
    FormatErrorParams, MaxItemsErrorParams, MaxLengthErrorParams, MaxPropertiesErrorParams,
    MaximumErrorParams, MinItemsErrorParams, MinLengthErrorParams, MinPropertiesErrorParams,
    MinimumErrorParams, MultipleOfErrorParams, PatternErrorParams, UniqueItemsErrorParams,
};

#[test]
fn default_messages_of_numeric_constraints() {
    assert_eq!(
        MinimumErrorParams::new(Number::I32(18)).to_default_message(),
        "The number must be `>= 18`."
    );
    assert_eq!(
        MaximumErrorParams::new(Number::I8(-3)).to_default_message(),
        "The number must be `<= -3`."
    );
    assert_eq!(
        ExclusiveMinimumErrorParams::new(Number::U64(0)).to_default_message(),
        "The number must be `> 0`."
    );
    assert_eq!(
        ExclusiveMaximumErrorParams::new(Number::Usize(100)).to_default_message(),
        "The number must be `< 100`."
    );
    assert_eq!(
        MultipleOfErrorParams::new(Number::I16(5)).to_default_message(),
        "The value must be multiple of `5`."
    );
}

#[test]
fn default_messages_of_text_constraints() {
    assert_eq!(
        MinLengthErrorParams::new(3).to_default_message(),
        "The length of the value must be `>= 3`."
    );
    assert_eq!(
        MaxLengthErrorParams::new(10).to_default_message(),
        "The length of the value must be `<= 10`."
    );
    assert_eq!(
        PatternErrorParams::new(r"^\d+$").to_default_message(),
        "The value must match the pattern of \"^\\d+$\"."
    );
    assert_eq!(
        FormatErrorParams::new("gmail").to_default_message(),
        "The value does not follow the \"gmail\" format."
    );
}

#[test]
fn default_messages_of_collection_constraints() {
    assert_eq!(
        MinItemsErrorParams::new(1).to_default_message(),
        "The length of the items must be `>= 1`."
    );
    assert_eq!(
        MaxItemsErrorParams::new(2).to_default_message(),
        "The length of the items must be `<= 2`."
    );
    assert_eq!(UniqueItemsErrorParams::new().to_default_message(), "The items must be unique.");
    assert_eq!(
        MinPropertiesErrorParams::new(1).to_default_message(),
        "The size of the properties must be `>= 1`."
    );
    assert_eq!(
        MaxPropertiesErrorParams::new(0).to_default_message(),
        "The size of the properties must be `<= 0`."
    );
}

#[test]
fn default_message_of_candidates_of_every_kind() {
    let params = EnumerateErrorParams::new(vec![
        Literal::Number(Number::I8(-1)),
        Literal::Bool(false),
        Literal::Str("a b".to_owned()),
        Literal::Char('\u{00E9}'),
        Literal::Null,
    ]);
    assert_eq!(
        params.to_default_message(),
        "The value must be in [-1, false, \"a b\", '\u{00E9}', null]."
    );
}

#[test]
fn message_is_rendered_when_it_is_made() {
    let message = Message::new(FormatErrorParams::new("gmail"), FormatErrorParams::to_default_message);
    assert_eq!(message.text(), "The value does not follow the \"gmail\" format.");
    assert_eq!(message.error().format(), "gmail");

    let message = Message::new(MinimumErrorParams::new(Number::I32(1)), |params: &MinimumErrorParams| {
        format!("at least {}", params.minimum().to_text())
    });
    assert_eq!(message.text(), "at least 1");

    let message = Message::with_text(MinLengthErrorParams::new(3), "too short");
    assert_eq!(message.text(), "too short");
    assert_eq!(message.error().min_length(), 3);
}
