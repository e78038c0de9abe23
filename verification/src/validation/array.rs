pub mod items;
pub mod unique_items;

pub use items::{
    validate_array_items, validate_array_max_items, validate_array_min_items, ValidateMaxItems,
    ValidateMinItems,
};
pub use unique_items::{validate_array_unique_items, ValidateUniqueItems};
