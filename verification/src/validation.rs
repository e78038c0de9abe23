pub mod array;
pub mod error;
pub mod generic;
pub mod numeric;
pub mod object;
pub mod string;

pub use array::{
    validate_array_items, validate_array_max_items, validate_array_min_items,
    validate_array_unique_items, ValidateMaxItems, ValidateMinItems, ValidateUniqueItems,
};
pub use error::{
    ArrayErrors, ArrayErrorsView, Error, ErrorView, Errors, ErrorsView, MapErrors, MergeFault,
    ObjectErrors, ObjectErrorsView, VecErrors,
};
pub use generic::{validate_generic_enumerate, ValidateEnumerate};
pub use numeric::{
    ValidateExclusiveMaximum, ValidateExclusiveMinimum, ValidateMaximum, ValidateMinimum,
    ValidateMultipleOf,
};
pub use object::{
    validate_object_max_properties, validate_object_min_properties, ValidateMaxProperties,
    ValidateMinProperties,
};
pub use string::{
    validate_string_max_length, validate_string_min_length, validate_string_pattern,
    InvalidPattern, Pattern, PatternCache, ValidateFormat, ValidateMaxLength, ValidateMinLength,
    ValidatePattern,
};
