pub mod format;
pub mod max_length;
pub mod min_length;
pub mod pattern;

pub use format::ValidateFormat;
pub use max_length::{validate_string_max_length, ValidateMaxLength};
pub use min_length::{validate_string_min_length, ValidateMinLength};
pub use pattern::{validate_string_pattern, InvalidPattern, Pattern, PatternCache, ValidatePattern};
