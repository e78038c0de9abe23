pub mod constraint;
pub mod context;
pub mod exhaustive;
pub mod laws;
pub mod walk;

pub use constraint::{failure_error, failure_of, message_text, plain_failure};
pub use context::{deterministic, outcome, rendered, renders, renders_alike, total, Context};
pub use walk::{
    check_errors, element_errors, field_errors, fields_errors, plain_errors, record_errors,
    rules_errors, validate_record, validation_errors, walk,
};
