use crate::validation::{Error, ErrorView};
use crate::value::Value;
use vstd::prelude::*;

verus! {

/// What a predicate answered, as contracts see it.
pub open spec fn answer_view(answer: Result<(), String>) -> Result<(), Seq<char>> {
    match answer {
        Ok(_) => Ok(()),
        Err(text) => Err(text@),
    }
}

/// The predicates can be called on every number and value.
pub open spec fn total<P: Fn(usize, &Value) -> Result<(), String>>(predicates: P) -> bool {
    forall|id: usize, value: &Value| call_requires(predicates, (id, value))
}

/// The predicates answer the same to the same question.
pub open spec fn deterministic<P: Fn(usize, &Value) -> Result<(), String>>(predicates: P) -> bool {
    forall|id: usize, value: &Value, a: Result<(), String>, b: Result<(), String>|
        call_ensures(predicates, (id, value), a) && call_ensures(predicates, (id, value), b)
            ==> answer_view(a) == answer_view(b)
}

/// The answer of the predicate with the number `id` on `value`.
pub open spec fn outcome<P: Fn(usize, &Value) -> Result<(), String>>(
    predicates: P,
    id: usize,
    value: Value,
) -> Result<(), Seq<char>> {
    answer_view(choose|answer: Result<(), String>| call_ensures(predicates, (id, &value), answer))
}

/// The message functions can be called on every number and error.
pub open spec fn renders<M: Fn(usize, &Error) -> String>(messages: M) -> bool {
    forall|id: usize, error: &Error| call_requires(messages, (id, error))
}

/// The message functions give the same text for errors that hold the same.
pub open spec fn renders_alike<M: Fn(usize, &Error) -> String>(messages: M) -> bool {
    forall|id: usize, first: &Error, second: &Error, a: String, b: String|
        first@ == second@ && call_ensures(messages, (id, first), a) && call_ensures(
            messages,
            (id, second),
            b,
        ) ==> a@ == b@
}

/// Whether the message function with the number `id` can give `text` for an error.
pub open spec fn renders_to<M: Fn(usize, &Error) -> String>(
    messages: M,
    id: usize,
    error: ErrorView,
    text: Seq<char>,
) -> bool {
    exists|made: Error, given: String|
        #[trigger] call_ensures(messages, (id, &made), given) && made@ == error && given@ == text
}

/// The text that the message function with the number `id` gives for an error.
pub open spec fn rendered<M: Fn(usize, &Error) -> String>(
    messages: M,
    id: usize,
    error: ErrorView,
) -> Seq<char> {
    choose|text: Seq<char>| renders_to(messages, id, error, text)
}

/// The functions of the caller that checks name by number: the predicates behind formats,
/// custom checks and rules, and the functions that render messages.
pub struct Context<P, M> {
    pub predicates: P,
    pub messages: M,
}

impl<P: Fn(usize, &Value) -> Result<(), String>, M: Fn(usize, &Error) -> String> Context<P, M> {
    /// The functions answer every question, and the same question always alike.
    pub open spec fn answers(self) -> bool {
        &&& total(self.predicates)
        &&& deterministic(self.predicates)
        &&& renders(self.messages)
        &&& renders_alike(self.messages)
    }

    /// The functions of the caller, put together.
    pub fn new(predicates: P, messages: M) -> (context: Self)
        ensures
            context.predicates == predicates,
            context.messages == messages,
    {
        Context { predicates, messages }
    }
}

} // verus!
