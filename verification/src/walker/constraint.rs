use super::context::{
    deterministic, outcome, rendered, renders, renders_alike, renders_to, total, Context,
};
use crate::error::generic::{copy_literals, literal_views};
use crate::error::number::is_multiple;
use crate::error::{
    EnumerateErrorParams, ExclusiveMaximumErrorParams, ExclusiveMinimumErrorParams, Failure,
    FormatErrorParams, Literal, LiteralView, MaxItemsErrorParams, MaxLengthErrorParams,
    MaxPropertiesErrorParams, MaximumErrorParams, Message, MinItemsErrorParams,
    MinLengthErrorParams, MinPropertiesErrorParams, MinimumErrorParams, MultipleOfErrorParams,
    PatternErrorParams, ToDefaultMessage, UniqueItemsErrorParams,
};
use crate::text::str_equal;
use crate::validation::string::pattern::regex_matches;
use crate::validation::{Error, ErrorView};
use crate::validator::{Check, Constraint, MessageSource};
use crate::value::{values_equal, Value};
use vstd::prelude::*;
use vstd::string::StrSliceExecFns;

verus! {

/// Some two values of the sequence are equal.
pub open spec fn has_duplicate(items: Seq<Value>) -> bool {
    exists|i: int, j: int| 0 <= i < j < items.len() && values_equal(items[i], items[j])
}

/// Whether a candidate stands for the value.
pub open spec fn literal_matches(literal: LiteralView, value: Value) -> bool {
    match (literal, value) {
        (LiteralView::Number(a), Value::Number(b)) => a.value() == b.value(),
        (LiteralView::Bool(a), Value::Bool(b)) => a == b,
        (LiteralView::Char(a), Value::Char(b)) => a == b,
        (LiteralView::Str(a), Value::Text(b)) => a == b@,
        _ => false,
    }
}

/// Whether some candidate stands for the value.
pub open spec fn is_enumerated(candidates: Seq<Literal>, value: Value) -> bool {
    exists|i: int| 0 <= i < candidates.len() && literal_matches(#[trigger] candidates[i]@, value)
}

/// What a constraint reports on a value: nothing where the value meets it, and nothing where the
/// constraint does not speak of values of that kind.
///
/// Bounds and multiples speak of numbers, lengths and patterns and formats of texts, item counts
/// and uniqueness of sequences, property counts of structs, candidates of numbers, booleans,
/// characters and texts.
pub open spec fn failure_of<P: Fn(usize, &Value) -> Result<(), String>>(
    constraint: Constraint,
    value: Value,
    predicates: P,
) -> Option<Failure> {
    match (constraint, value) {
        (Constraint::Minimum(bound), Value::Number(n)) => if n.value() >= bound.value() {
            None
        } else {
            Some(Failure::Minimum(bound))
        },
        (Constraint::Maximum(bound), Value::Number(n)) => if n.value() <= bound.value() {
            None
        } else {
            Some(Failure::Maximum(bound))
        },
        (Constraint::ExclusiveMinimum(bound), Value::Number(n)) => if n.value() > bound.value() {
            None
        } else {
            Some(Failure::ExclusiveMinimum(bound))
        },
        (Constraint::ExclusiveMaximum(bound), Value::Number(n)) => if n.value() < bound.value() {
            None
        } else {
            Some(Failure::ExclusiveMaximum(bound))
        },
        (Constraint::MultipleOf(divisor), Value::Number(n)) => if is_multiple(
            n.value(),
            divisor.value(),
        ) {
            None
        } else {
            Some(Failure::MultipleOf(divisor))
        },
        (Constraint::MinLength(min), Value::Text(text)) => if text@.len() >= min {
            None
        } else {
            Some(Failure::MinLength(min as nat))
        },
        (Constraint::MaxLength(max), Value::Text(text)) => if text@.len() <= max {
            None
        } else {
            Some(Failure::MaxLength(max as nat))
        },
        (Constraint::Pattern(pattern), Value::Text(text)) => if regex_matches(pattern@, text@) {
            None
        } else {
            Some(Failure::Pattern(pattern@))
        },
        (Constraint::MinItems(min), Value::Sequence(items)) => if items@.len() >= min {
            None
        } else {
            Some(Failure::MinItems(min as nat))
        },
        (Constraint::MaxItems(max), Value::Sequence(items)) => if items@.len() <= max {
            None
        } else {
            Some(Failure::MaxItems(max as nat))
        },
        (Constraint::UniqueItems, Value::Sequence(items)) => if has_duplicate(items@) {
            Some(Failure::UniqueItems)
        } else {
            None
        },
        (Constraint::MinProperties(min), Value::Nested(record)) => if record.fields@.len() >= min {
            None
        } else {
            Some(Failure::MinProperties(min as nat))
        },
        (Constraint::MaxProperties(max), Value::Nested(record)) => if record.fields@.len() <= max {
            None
        } else {
            Some(Failure::MaxProperties(max as nat))
        },
        (Constraint::Enumerate(candidates), Value::Number(_)) => enumerate_failure(
            candidates@,
            value,
        ),
        (Constraint::Enumerate(candidates), Value::Bool(_)) => enumerate_failure(
            candidates@,
            value,
        ),
        (Constraint::Enumerate(candidates), Value::Char(_)) => enumerate_failure(
            candidates@,
            value,
        ),
        (Constraint::Enumerate(candidates), Value::Text(_)) => enumerate_failure(
            candidates@,
            value,
        ),
        (Constraint::Format(id), Value::Text(_)) => match outcome(predicates, id, value) {
            Ok(_) => None,
            Err(format) => Some(Failure::Format(format)),
        },
        _ => None,
    }
}

/// What a list of candidates reports on a value.
pub open spec fn enumerate_failure(candidates: Seq<Literal>, value: Value) -> Option<Failure> {
    if is_enumerated(candidates, value) {
        None
    } else {
        Some(Failure::Enumerate(literal_views(candidates)))
    }
}

/// A failure as it is reported before any message was chosen for it: with its default message.
pub open spec fn default_error(failure: Failure) -> ErrorView {
    ErrorView::Message { failure, text: failure.default_message() }
}

/// The text that a failure is reported with: the default message, the declared text, or what the
/// declared message function makes of the failure.
pub open spec fn message_text<M: Fn(usize, &Error) -> String>(
    message: MessageSource,
    failure: Failure,
    messages: M,
) -> Seq<char> {
    match message {
        MessageSource::Default => failure.default_message(),
        MessageSource::Text(text) => text@,
        MessageSource::Function(id) => rendered(messages, id, default_error(failure)),
    }
}

/// The payload with its default message.
fn reported<E: ToDefaultMessage>(error: E) -> (made: Message<E>)
    ensures
        made.error == error,
        call_ensures(E::to_default_message, (&error,), made.text),
{
    let text: String = error.to_default_message();
    Message { error, text }
}

/// Gives an error that carries its default message the text that was declared for it.
fn render<M: Fn(usize, &Error) -> String>(
    error: Error,
    message: &MessageSource,
    messages: &M,
) -> (made: Error)
    requires
        renders(*messages),
        renders_alike(*messages),
        error@ matches ErrorView::Message { failure, text } && text == failure.default_message(),
    ensures
        made@ == (ErrorView::Message {
            failure: error@->failure,
            text: message_text(*message, error@->failure, *messages),
        }),
{
    match message {
        MessageSource::Default => error,
        MessageSource::Text(text) => error.with_text(text.clone()),
        MessageSource::Function(id) => {
            let text: String = messages(*id, &error);
            proof {
                assert(renders_to(*messages, *id, error@, text@));
                let chosen = rendered(*messages, *id, error@);
                assert(renders_to(*messages, *id, error@, chosen));
                let (made, given) = choose|made: Error, given: String|
                    #[trigger] call_ensures(*messages, (*id, &made), given) && made@ == error@
                        && given@ == chosen;
                assert(given@ == text@);
            }
            error.with_text(text)
        },
    }
}

/// Whether some two values of the sequence are equal.
pub fn any_duplicate(items: &Vec<Value>) -> (found: bool)
    ensures
        found == has_duplicate(items@),
{
    let mut j: usize = 0;
    while j < items.len()
        invariant
            j <= items@.len(),
            forall|a: int, b: int| 0 <= a < b < j ==> !values_equal(items@[a], items@[b]),
        decreases items@.len() - j,
    {
        let mut i: usize = 0;
        while i < j
            invariant
                i <= j < items@.len(),
                forall|a: int| 0 <= a < i ==> !values_equal(items@[a], items@[j as int]),
            decreases j - i,
        {
            if items[i].same(&items[j]) {
                return true;
            }
            i = i + 1;
        }
        j = j + 1;
    }
    false
}

/// Whether a candidate stands for the value.
pub fn matches_literal(literal: &Literal, value: &Value) -> (matches: bool)
    ensures
        matches == literal_matches(literal@, *value),
{
    match (literal, value) {
        (Literal::Number(a), Value::Number(b)) => a.same_value(b),
        (Literal::Bool(a), Value::Bool(b)) => *a == *b,
        (Literal::Char(a), Value::Char(b)) => *a == *b,
        (Literal::Str(a), Value::Text(b)) => str_equal(a.as_str(), b.as_str()),
        _ => false,
    }
}

/// Whether some candidate stands for the value.
pub fn any_literal(candidates: &Vec<Literal>, value: &Value) -> (found: bool)
    ensures
        found == is_enumerated(candidates@, *value),
{
    let mut i: usize = 0;
    while i < candidates.len()
        invariant
            i <= candidates@.len(),
            forall|k: int| 0 <= k < i ==> !literal_matches(#[trigger] candidates@[k]@, *value),
        decreases candidates@.len() - i,
    {
        if matches_literal(&candidates[i], value) {
            return true;
        }
        i = i + 1;
    }
    false
}

/// Applies one constraint on values to `value` and reports its failure, if any, with the
/// default message.
pub fn plain_failure<P: Fn(usize, &Value) -> Result<(), String>>(
    constraint: &Constraint,
    value: &Value,
    predicates: &P,
) -> (error: Option<Error>)
    requires
        total(*predicates),
        deterministic(*predicates),
    ensures
        match failure_of(*constraint, *value, *predicates) {
            Some(failure) => error matches Some(e) && e@ == default_error(failure),
            None => error is None,
        },
{
    match (constraint, value) {
        (Constraint::Minimum(bound), Value::Number(n)) => {
            if n.at_least(bound) {
                None
            } else {
                Some(Error::Minimum(reported(MinimumErrorParams::new(*bound))))
            }
        },
        (Constraint::Maximum(bound), Value::Number(n)) => {
            if n.at_most(bound) {
                None
            } else {
                Some(Error::Maximum(reported(MaximumErrorParams::new(*bound))))
            }
        },
        (Constraint::ExclusiveMinimum(bound), Value::Number(n)) => {
            if n.above(bound) {
                None
            } else {
                Some(
                    Error::ExclusiveMinimum(
                        reported(ExclusiveMinimumErrorParams::new(*bound)),
                    ),
                )
            }
        },
        (Constraint::ExclusiveMaximum(bound), Value::Number(n)) => {
            if n.below(bound) {
                None
            } else {
                Some(
                    Error::ExclusiveMaximum(
                        reported(ExclusiveMaximumErrorParams::new(*bound)),
                    ),
                )
            }
        },
        (Constraint::MultipleOf(divisor), Value::Number(n)) => {
            if n.is_multiple_of(divisor) {
                None
            } else {
                Some(
                    Error::MultipleOf(reported(MultipleOfErrorParams::new(*divisor))),
                )
            }
        },
        (Constraint::MinLength(min), Value::Text(text)) => {
            if text.as_str().unicode_len() >= *min {
                None
            } else {
                Some(Error::MinLength(reported(MinLengthErrorParams::new(*min))))
            }
        },
        (Constraint::MaxLength(max), Value::Text(text)) => {
            if text.as_str().unicode_len() <= *max {
                None
            } else {
                Some(Error::MaxLength(reported(MaxLengthErrorParams::new(*max))))
            }
        },
        (Constraint::Pattern(pattern), Value::Text(text)) => {
            if pattern.is_match(text.as_str()) {
                None
            } else {
                Some(
                    Error::Pattern(
                        reported(PatternErrorParams::new(pattern.as_str())),
                    ),
                )
            }
        },
        (Constraint::MinItems(min), Value::Sequence(items)) => {
            if items.len() >= *min {
                None
            } else {
                Some(Error::MinItems(reported(MinItemsErrorParams::new(*min))))
            }
        },
        (Constraint::MaxItems(max), Value::Sequence(items)) => {
            if items.len() <= *max {
                None
            } else {
                Some(Error::MaxItems(reported(MaxItemsErrorParams::new(*max))))
            }
        },
        (Constraint::UniqueItems, Value::Sequence(items)) => {
            if any_duplicate(items) {
                Some(Error::UniqueItems(reported(UniqueItemsErrorParams::new())))
            } else {
                None
            }
        },
        (Constraint::MinProperties(min), Value::Nested(record)) => {
            if record.fields.len() >= *min {
                None
            } else {
                Some(
                    Error::MinProperties(
                        reported(MinPropertiesErrorParams::new(*min)),
                    ),
                )
            }
        },
        (Constraint::MaxProperties(max), Value::Nested(record)) => {
            if record.fields.len() <= *max {
                None
            } else {
                Some(
                    Error::MaxProperties(
                        reported(MaxPropertiesErrorParams::new(*max)),
                    ),
                )
            }
        },
        (Constraint::Enumerate(candidates), Value::Number(_)) => enumerate_error(candidates, value),
        (Constraint::Enumerate(candidates), Value::Bool(_)) => enumerate_error(candidates, value),
        (Constraint::Enumerate(candidates), Value::Char(_)) => enumerate_error(candidates, value),
        (Constraint::Enumerate(candidates), Value::Text(_)) => enumerate_error(candidates, value),
        (Constraint::Format(id), Value::Text(_)) => {
            match predicates(*id, value) {
                Ok(_) => None,
                Err(format) => Some(
                    Error::Format(reported(FormatErrorParams { format })),
                ),
            }
        },
        _ => None,
    }
}

/// Applies one constraint on values to `value` and reports its failure, if any, with the
/// message that was declared for the check.
///
/// Custom predicates and nested structs are not handled here: see [`check_errors`].
pub fn failure_error<P: Fn(usize, &Value) -> Result<(), String>, M: Fn(usize, &Error) -> String>(
    check: &Check,
    value: &Value,
    context: &Context<P, M>,
) -> (error: Option<Error>)
    requires
        context.answers(),
    ensures
        match failure_of(check.constraint, *value, context.predicates) {
            Some(failure) => error matches Some(e) && e@ == (ErrorView::Message {
                failure,
                text: message_text(check.message, failure, context.messages),
            }),
            None => error is None,
        },
{
    match plain_failure(&check.constraint, value, &context.predicates) {
        Some(error) => Some(render(error, &check.message, &context.messages)),
        None => None,
    }
}

/// Applies a list of candidates to `value` and reports its failure, if any.
fn enumerate_error(candidates: &Vec<Literal>, value: &Value) -> (error: Option<Error>)
    ensures
        match enumerate_failure(candidates@, *value) {
            Some(failure) => error matches Some(e) && e@ == default_error(failure),
            None => error is None,
        },
{
    if any_literal(candidates, value) {
        None
    } else {
        Some(Error::Enumerate(reported(EnumerateErrorParams::new(copy_literals(candidates)))))
    }
}

} // verus!
