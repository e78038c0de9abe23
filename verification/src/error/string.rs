pub mod format;
pub mod length;
pub mod pattern;

pub use format::FormatErrorParams;
pub use length::{MaxLengthErrorParams, MinLengthErrorParams};
pub use pattern::PatternErrorParams;
