pub mod derive;
pub mod error;
pub mod json;
pub mod query;
pub mod suggest;
pub mod text;
pub mod validation;
pub mod validator;
pub mod value;
pub mod walker;

use vstd::prelude::*;

pub use error::{
    EnumerateErrorParams, ExclusiveMaximumErrorParams, ExclusiveMinimumErrorParams,
    FormatErrorParams, MaxItemsErrorParams, MaxLengthErrorParams, MaxPropertiesErrorParams,
    MaximumErrorParams, MinItemsErrorParams, MinLengthErrorParams, MinPropertiesErrorParams,
    MinimumErrorParams, MultipleOfErrorParams, PatternErrorParams, UniqueItemsErrorParams,
};
pub use query::Query;
pub use validation::{
    validate_array_items, validate_array_max_items, validate_array_min_items,
    validate_array_unique_items, validate_generic_enumerate, validate_object_max_properties,
    validate_object_min_properties, validate_string_max_length, validate_string_min_length,
    validate_string_pattern, ValidateEnumerate, ValidateExclusiveMaximum,
    ValidateExclusiveMinimum, ValidateFormat, ValidateMaxItems, ValidateMaxLength,
    ValidateMaxProperties, ValidateMaximum, ValidateMinItems, ValidateMinLength,
    ValidateMinProperties, ValidateMinimum, ValidateMultipleOf, ValidatePattern,
    ValidateUniqueItems,
};

verus! {

/// The validation entry point of a data value: `Ok` where no constraint is violated, and
/// otherwise every violation that was found.
pub trait Validate {
    fn validate(&self) -> std::result::Result<(), self::validation::Errors>;
}

/// A value together with the functions of the caller that its checks name by number.
pub struct Validated<
    P: Fn(usize, &value::Value) -> Result<(), String>,
    M: Fn(usize, &self::validation::Error) -> String,
> {
    value: value::Value,
    context: walker::Context<P, M>,
}

impl<
    P: Fn(usize, &value::Value) -> Result<(), String>,
    M: Fn(usize, &self::validation::Error) -> String,
> Validated<P, M> {
    #[verifier::type_invariant]
    spec fn context_answers(self) -> bool {
        self.context.answers()
    }

    /// Pairs a value with the functions of the caller, which answer every question, and the same
    /// question always alike.
    pub fn new(value: value::Value, context: walker::Context<P, M>) -> (validated: Self)
        requires
            context.answers(),
        ensures
            validated.value() == value,
            validated.context() == context,
    {
        Validated { value, context }
    }

    /// The value under validation.
    pub closed spec fn value(self) -> value::Value {
        self.value
    }

    /// The functions of the caller.
    pub closed spec fn context(self) -> walker::Context<P, M> {
        self.context
    }
}

impl<
    P: Fn(usize, &value::Value) -> Result<(), String>,
    M: Fn(usize, &self::validation::Error) -> String,
> Validate for Validated<P, M> {
    fn validate(&self) -> (result: std::result::Result<(), self::validation::Errors>)
        ensures
            match walker::validation_errors(self.value(), self.context()) {
                Some(expected) => result matches Err(found) && found@ == expected,
                None => result is Ok,
            },
            result matches Err(found) ==> self::validation::error::well_formed::well_formed(found@)
                && !self::validation::error::errors::is_empty(found@),
    {
        proof {
            use_type_invariant(self);
        }
        self.value.validate(&self.context)
    }
}

} // verus!
