pub mod common;
pub mod error;
pub mod field;
pub mod meta;
pub mod tables;
pub mod types;
pub mod validate;

pub use error::{Error, ErrorKind, Errors};
pub use field::{
    collect_validators, find_original_field_name, find_rename, reaches_literal, Attribute,
    FieldDeclaration, Located, Rename,
};
pub use meta::{Lit, Meta, MetaList, MetaNameValue, NestedMeta};
pub use tables::{compile_patterns, declared_functions, declared_patterns, PatternUse};
pub use types::{get_field_type, shape_of, FieldType, TypeForm, UnnamedField};
pub use validate::{
    extract_generic_custom_validator, extract_meta_validator, extract_string_format_validator,
    extract_string_pattern_validator, extract_string_pattern_validator_from_meta_name_value,
    extract_validator_from_meta_list, extract_validator_from_nested_meta_list,
};
