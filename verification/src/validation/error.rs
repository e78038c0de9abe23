pub mod array_errors;
pub mod checked;
pub mod duplicate;
pub mod error;
pub mod errors;
pub mod leaves;
pub mod map_errors;
pub mod object_errors;
pub mod serialize;
pub mod try_merge;
pub mod unite;
pub mod well_formed;

pub use crate::error::{
    EnumerateErrorParams, ExclusiveMaximumErrorParams, ExclusiveMinimumErrorParams,
    MaxItemsErrorParams, MaxLengthErrorParams, MaxPropertiesErrorParams, MaximumErrorParams,
    Message, MinItemsErrorParams, MinLengthErrorParams, MinPropertiesErrorParams,
    MinimumErrorParams, MultipleOfErrorParams, PatternErrorParams, UniqueItemsErrorParams,
};
pub use error::{
    ArrayErrors, ArrayErrorsView, Error, ErrorView, Errors, ErrorsView, MapErrors, ObjectErrors,
    ObjectErrorsView, VecErrors,
};
pub use try_merge::MergeFault;
