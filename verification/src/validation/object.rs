pub mod properties;

pub use properties::{
    validate_object_max_properties, validate_object_min_properties, ValidateMaxProperties,
    ValidateMinProperties,
};
