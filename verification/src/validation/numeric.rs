pub mod exclusive_maximum;
pub mod exclusive_minimum;
pub mod maximum;
pub mod minimum;
pub mod multiple_of;

pub use exclusive_maximum::ValidateExclusiveMaximum;
pub use exclusive_minimum::ValidateExclusiveMinimum;
pub use maximum::ValidateMaximum;
pub use minimum::ValidateMinimum;
pub use multiple_of::ValidateMultipleOf;
