pub mod enumerate;

pub use enumerate::{validate_generic_enumerate, ValidateEnumerate};
