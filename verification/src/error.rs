use vstd::prelude::*;
use vstd::string::StringExecFns;

pub mod array;
pub mod generic;
pub mod number;
pub mod numeric;
pub mod object;
pub mod string;

pub use array::{MaxItemsErrorParams, MinItemsErrorParams, UniqueItemsErrorParams};
pub use generic::{EnumerateErrorParams, Literal, LiteralView};
pub use number::Number;
pub use numeric::{
    ExclusiveMaximumErrorParams, ExclusiveMinimumErrorParams, MaximumErrorParams,
    MinimumErrorParams, MultipleOfErrorParams,
};
pub use object::{MaxPropertiesErrorParams, MinPropertiesErrorParams};
pub use string::{FormatErrorParams, MaxLengthErrorParams, MinLengthErrorParams, PatternErrorParams};

verus! {

/// What one violated constraint reports: the kind of the constraint and the bound or
/// parameter that the value failed to meet.
pub enum Failure {
    Minimum(Number),
    Maximum(Number),
    ExclusiveMinimum(Number),
    ExclusiveMaximum(Number),
    MultipleOf(Number),
    MinLength(nat),
    MaxLength(nat),
    Pattern(Seq<char>),
    Format(Seq<char>),
    MinItems(nat),
    MaxItems(nat),
    UniqueItems,
    MinProperties(nat),
    MaxProperties(nat),
    Enumerate(Seq<LiteralView>),
}

impl Failure {
    /// The message that a failure is rendered with when the caller supplies none.
    pub open spec fn default_message(self) -> Seq<char> {
        match self {
            Failure::Minimum(n) => "The number must be `>= "@ + number::decimal(n.value()) + "`."@,
            Failure::Maximum(n) => "The number must be `<= "@ + number::decimal(n.value()) + "`."@,
            Failure::ExclusiveMinimum(n) => "The number must be `> "@ + number::decimal(n.value())
                + "`."@,
            Failure::ExclusiveMaximum(n) => "The number must be `< "@ + number::decimal(n.value())
                + "`."@,
            Failure::MultipleOf(n) => "The value must be multiple of `"@ + number::decimal(
                n.value(),
            ) + "`."@,
            Failure::MinLength(n) => "The length of the value must be `>= "@ + number::decimal(
                n as int,
            ) + "`."@,
            Failure::MaxLength(n) => "The length of the value must be `<= "@ + number::decimal(
                n as int,
            ) + "`."@,
            Failure::Pattern(p) => "The value must match the pattern of \""@ + p + "\"."@,
            Failure::Format(f) => "The value does not follow the \""@ + f + "\" format."@,
            Failure::MinItems(n) => "The length of the items must be `>= "@ + number::decimal(
                n as int,
            ) + "`."@,
            Failure::MaxItems(n) => "The length of the items must be `<= "@ + number::decimal(
                n as int,
            ) + "`."@,
            Failure::UniqueItems => "The items must be unique."@,
            Failure::MinProperties(n) => "The size of the properties must be `>= "@
                + number::decimal(n as int) + "`."@,
            Failure::MaxProperties(n) => "The size of the properties must be `<= "@
                + number::decimal(n as int) + "`."@,
            Failure::Enumerate(items) => "The value must be in ["@ + generic::literals_text(items)
                + "]."@,
        }
    }
}

/// Renders a failure payload when no custom message was declared.
pub trait ToDefaultMessage {
    fn to_default_message(&self) -> String;
}

/// A failure payload together with the text it was rendered to.
///
/// The text is resolved once, when the message is made: by the default rendering of the payload
/// or by a function of the caller.
#[derive(Debug, Clone)]
pub struct Message<E> {
    pub error: E,
    pub text: String,
}

impl<E> Message<E> {
    /// Pairs `error` with the text that `format_fn` renders it to.
    pub fn new<F: FnOnce(&E) -> String>(error: E, format_fn: F) -> (message: Self)
        requires
            call_requires(format_fn, (&error,)),
        ensures
            message.error == error,
            call_ensures(format_fn, (&error,), message.text),
    {
        let text: String = format_fn(&error);
        Message { error, text }
    }

    /// Pairs `error` with a text declared in place of any rendering.
    pub fn with_text(error: E, text: &str) -> (message: Self)
        ensures
            message.error == error,
            message.text@ == text@,
    {
        Message { error, text: text.to_owned() }
    }

    /// The failure payload.
    pub fn error(&self) -> (error: &E)
        ensures
            *error == self.error,
    {
        &self.error
    }

    /// The rendered text.
    pub fn text(&self) -> (text: &str)
        ensures
            text@ == self.text@,
    {
        self.text.as_str()
    }
}

/// Concatenates three pieces of text.
pub fn compose(prefix: &str, middle: &str, suffix: &str) -> (text: String)
    ensures
        text@ == prefix@ + middle@ + suffix@,
{
    let mut text: String = String::from_str(prefix);
    text.append(middle);
    text.append(suffix);
    text
}

/// Writes a length or a count between two pieces of text.
pub fn compose_count(prefix: &str, count: usize, suffix: &str) -> (text: String)
    ensures
        text@ == prefix@ + number::decimal(count as int) + suffix@,
{
    let mut text: String = String::from_str(prefix);
    number::push_decimal(&mut text, count as u128);
    text.append(suffix);
    text
}

} // verus!
