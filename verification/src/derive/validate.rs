use super::common::{
    MetaListMessage, MetaListValidation, MetaNameValueMessage, MetaNameValueValidation,
    MetaPathValidation,
};
use super::error::{error_views, fault, fault_of, unknown_type, Error, ErrorKind, ErrorView, Errors};
use super::meta::{Lit, Meta, MetaList, MetaNameValue, NestedMeta};
use crate::error::{Literal, LiteralView, Number};
use crate::text::str_equal;
use crate::validation::PatternCache;
use crate::validator::{
    validator_view_for, Check, CheckView, Constraint, ConstraintView, MessageSource, MessageView,
    Shape, Validator, ValidatorView,
};
use vstd::prelude::*;

verus! {

/// What an attribute, a list or an item declares: a check, or the faults of the declaration.
pub type Declared = Result<CheckView, Seq<ErrorView>>;

/// A check with its message.
pub open spec fn declared(constraint: ConstraintView, message: MessageView) -> Declared {
    Ok(CheckView { constraint, message })
}

/// One fault.
pub open spec fn refused<T>(error: ErrorView) -> Result<T, Seq<ErrorView>> {
    Err(seq![error])
}

/// The same fault `n` times.
pub open spec fn repeated(error: ErrorView, n: nat) -> Seq<ErrorView> {
    Seq::new(n, |i: int| error)
}

/// Whether an exec result is what a declaration is said to give.
pub open spec fn gives_check(found: Result<Check, Errors>, expected: Declared) -> bool {
    match expected {
        Ok(check) => found matches Ok(made) && made@ == check,
        Err(errors) => found matches Err(faults) && error_views(faults@) == errors,
    }
}

/// The first position at or after `start` in which the name stands.
pub open spec fn index_of(names: Seq<&str>, name: Seq<char>, start: int) -> Option<int>
    decreases names.len() - start,
{
    if start < 0 || start >= names.len() {
        None
    } else if names[start]@ == name {
        Some(start)
    } else {
        index_of(names, name, start + 1)
    }
}

/// The number of a function of the caller: the first position of its name among `functions`.
pub fn function_number(name: &str, functions: &[&str]) -> (number: Option<usize>)
    ensures
        match index_of(functions@, name@, 0) {
            Some(k) => number == Some(k as usize) && 0 <= k < functions@.len(),
            None => number is None,
        },
{
    let mut k: usize = 0;
    while k < functions.len()
        invariant
            k <= functions@.len(),
            index_of(functions@, name@, 0) == index_of(functions@, name@, k as int),
        decreases functions@.len() - k,
    {
        if str_equal(functions[k], name) {
            return Some(k);
        }
        k = k + 1;
    }
    None
}

/// One fault as a list.
fn one(error: Error) -> (errors: Errors)
    ensures
        error_views(errors@) == seq![error@],
{
    let mut errors: Errors = Vec::new();
    errors.push(error);
    assert(error_views(errors@) =~= seq![error@]);
    errors
}

/// The number that a literal gives.
pub open spec fn numeric(lit: Lit) -> Result<Number, Seq<ErrorView>> {
    match lit {
        Lit::Int(number) => Ok(number),
        _ => refused(fault(ErrorKind::NumericLiteralOnly)),
    }
}

/// The number that a literal gives.
pub fn get_numeric(lit: &Lit) -> (found: Result<Number, Errors>)
    ensures
        match numeric(*lit) {
            Ok(number) => found matches Ok(made) && made == number,
            Err(errors) => found matches Err(faults) && error_views(faults@) == errors,
        },
{
    match lit {
        Lit::Int(number) => Ok(*number),
        _ => Err(one(Error::numeric_literal_only())),
    }
}

/// The count that a literal gives: a number that is not negative and fits a count.
pub open spec fn count(lit: Lit) -> Result<usize, Seq<ErrorView>> {
    match lit {
        Lit::Int(number) => if 0 <= number.value() <= usize::MAX {
            Ok(number.value() as usize)
        } else {
            refused(fault(ErrorKind::NumericLiteralOnly))
        },
        _ => refused(fault(ErrorKind::NumericLiteralOnly)),
    }
}

/// The count that a literal gives.
pub fn get_count(lit: &Lit) -> (found: Result<usize, Errors>)
    ensures
        match count(*lit) {
            Ok(n) => found matches Ok(made) && made == n,
            Err(errors) => found matches Err(faults) && error_views(faults@) == errors,
        },
{
    match lit {
        Lit::Int(number) => {
            if !number.is_negative() && number.magnitude() <= usize::MAX as u128 {
                Ok(number.magnitude() as usize)
            } else {
                Err(one(Error::numeric_literal_only()))
            }
        },
        _ => Err(one(Error::numeric_literal_only())),
    }
}

/// The text that a literal gives.
pub open spec fn text(lit: Lit) -> Result<Seq<char>, Seq<ErrorView>> {
    match lit {
        Lit::Str(text) => Ok(text@),
        _ => refused(fault(ErrorKind::StrLiteralOnly)),
    }
}

/// The text that a literal gives.
pub fn get_str(lit: &Lit) -> (found: Result<&str, Errors>)
    ensures
        match text(*lit) {
            Ok(text) => found matches Ok(made) && made@ == text,
            Err(errors) => found matches Err(faults) && error_views(faults@) == errors,
        },
{
    match lit {
        Lit::Str(text) => Ok(text.as_str()),
        _ => Err(one(Error::str_literal_only())),
    }
}

/// The name of the function that an item of `format(..)` or `custom(..)` names.
pub open spec fn function_name(item: NestedMeta) -> Result<Seq<char>, Seq<ErrorView>> {
    match item {
        NestedMeta::Meta(Meta::List(list)) => Ok(list.path@),
        NestedMeta::Meta(Meta::NameValue(_)) => refused(fault(ErrorKind::MetaNameValueNotSupport)),
        NestedMeta::Meta(Meta::Path(name)) => Ok(name@),
        NestedMeta::Lit(_) => refused(fault(ErrorKind::LiteralNotSupport)),
    }
}

/// The name of the function that an item of `format(..)` or `custom(..)` names.
pub fn extract_fn_name(nested_meta: &NestedMeta) -> (found: Result<&str, Error>)
    ensures
        match function_name(*nested_meta) {
            Ok(name) => found matches Ok(made) && made@ == name,
            Err(errors) => found matches Err(error) && seq![error@] == errors,
        },
{
    match nested_meta {
        NestedMeta::Meta(meta) => match meta {
            Meta::List(list) => Ok(list.path.as_str()),
            Meta::NameValue(_) => Err(Error::meta_name_value_not_support()),
            Meta::Path(fn_name) => Ok(fn_name.as_str()),
        },
        NestedMeta::Lit(_) => Err(Error::literal_not_support()),
    }
}

/// The number of the function that an item names.
pub open spec fn function_declared(item: NestedMeta, functions: Seq<&str>) -> Result<
    usize,
    Seq<ErrorView>,
> {
    match function_name(item) {
        Ok(name) => match index_of(functions, name, 0) {
            Some(k) => Ok(k as usize),
            None => refused(fault_of(ErrorKind::FunctionNotFound, name)),
        },
        Err(errors) => Err(errors),
    }
}

/// The number of the one function that a list names: none is a fault, and so is each item
/// after the first.
pub open spec fn single_function(
    nested: Seq<NestedMeta>,
    functions: Seq<&str>,
    need: ErrorKind,
    tail: ErrorKind,
) -> Result<usize, Seq<ErrorView>> {
    if nested.len() == 0 {
        refused(fault(need))
    } else if nested.len() == 1 {
        function_declared(nested[0], functions)
    } else {
        Err(repeated(fault(tail), (nested.len() - 1) as nat))
    }
}

/// The name of the one function that the list of a custom check names.
pub fn extract_custom_fn_name(nested_meta: &NestedMeta) -> (found: Result<&str, Error>)
    ensures
        match function_name(*nested_meta) {
            Ok(name) => found matches Ok(made) && made@ == name,
            Err(errors) => found matches Err(error) && seq![error@] == errors,
        },
{
    extract_fn_name(nested_meta)
}

/// The name of the one function that the list of a format check names.
pub fn extract_format_fn_name(nested_meta: &NestedMeta) -> (found: Result<&str, Error>)
    ensures
        match function_name(*nested_meta) {
            Ok(name) => found matches Ok(made) && made@ == name,
            Err(errors) => found matches Err(error) && seq![error@] == errors,
        },
{
    extract_fn_name(nested_meta)
}

/// The number of the function that an item names.
fn declared_function(found: Result<&str, Error>, functions: &[&str]) -> (number: Result<
    usize,
    Errors,
>)
    ensures
        match found {
            Ok(name) => match index_of(functions@, name@, 0) {
                Some(k) => number == Ok::<usize, Errors>(k as usize),
                None => number matches Err(faults) && error_views(faults@) == seq![
                    fault_of(ErrorKind::FunctionNotFound, name@),
                ],
            },
            Err(error) => number matches Err(faults) && error_views(faults@) == seq![error@],
        },
{
    match found {
        Ok(name) => match function_number(name, functions) {
            Some(number) => Ok(number),
            None => Err(one(Error::function_not_found(name))),
        },
        Err(error) => Err(one(error)),
    }
}

/// What `format(..)` declares.
pub open spec fn format_declared(
    list: MetaList,
    message: MessageView,
    functions: Seq<&str>,
) -> Declared {
    match single_function(
        list.nested@,
        functions,
        ErrorKind::ValidateFormatNeedItem,
        ErrorKind::ValidateFormatTailError,
    ) {
        Ok(id) => declared(ConstraintView::Format(id), message),
        Err(errors) => Err(errors),
    }
}

/// The format check that `format(..)` declares.
pub fn inner_extract_string_format_validator(
    meta_list: &MetaList,
    message_fn: MessageSource,
    functions: &[&str],
) -> (found: Result<Check, Errors>)
    ensures
        gives_check(found, format_declared(*meta_list, message_fn@, functions@)),
{
    let format_fn: usize = match meta_list.nested.len() {
        0 => { return Err(one(Error::validate_format_need_item())); },
        1 => match declared_function(extract_format_fn_name(&meta_list.nested[0]), functions) {
            Ok(number) => number,
            Err(errors) => { return Err(errors); },
        },
        _ => {
            let mut errors: Errors = Vec::new();
            let mut i: usize = 1;
            while i < meta_list.nested.len()
                invariant
                    1 <= i <= meta_list.nested@.len(),
                    error_views(errors@) == repeated(
                        fault(ErrorKind::ValidateFormatTailError),
                        (i - 1) as nat,
                    ),
                decreases meta_list.nested@.len() - i,
            {
                let ghost before = errors@;
                errors.push(Error::validate_format_tail_error());
                proof {
                    assert(error_views(errors@) =~= error_views(before).push(
                        fault(ErrorKind::ValidateFormatTailError),
                    ));
                    assert(error_views(errors@) =~= repeated(
                        fault(ErrorKind::ValidateFormatTailError),
                        i as nat,
                    ));
                }
                i = i + 1;
            }
            return Err(errors);
        },
    };
    Ok(Check { constraint: Constraint::Format(format_fn), message: message_fn })
}

/// The validator that `format(..)` declares on a field of the given shape: the format check at
/// the values that the shape leads to.
pub fn extract_string_format_validator(
    shape: &Shape,
    meta_list: &MetaList,
    message_fn: MessageSource,
    functions: &[&str],
) -> (found: Result<Validator, Errors>)
    ensures
        match format_declared(*meta_list, message_fn@, functions@) {
            Ok(check) => found matches Ok(validator) && validator@ == validator_view_for(
                check,
                *shape,
            ),
            Err(errors) => found matches Err(faults) && error_views(faults@) == errors,
        },
{
    match inner_extract_string_format_validator(meta_list, message_fn, functions) {
        Ok(check) => Ok(Validator::new(check, shape)),
        Err(errors) => Err(errors),
    }
}

/// What `custom(..)` declares. A custom check reports the text of its predicate: no message is
/// declared for it.
pub open spec fn custom_declared(list: MetaList, functions: Seq<&str>) -> Declared {
    match single_function(
        list.nested@,
        functions,
        ErrorKind::ValidateCustomNeedItem,
        ErrorKind::ValidateCustomTailError,
    ) {
        Ok(id) => declared(ConstraintView::Custom(id), MessageView::Default),
        Err(errors) => Err(errors),
    }
}

/// The custom check that `custom(..)` declares.
pub fn inner_extract_generic_custom_validator(meta_list: &MetaList, functions: &[&str]) -> (found:
    Result<Check, Errors>)
    ensures
        gives_check(found, custom_declared(*meta_list, functions@)),
{
    let custom_fn: usize = match meta_list.nested.len() {
        0 => { return Err(one(Error::validate_custom_need_item())); },
        1 => match declared_function(extract_custom_fn_name(&meta_list.nested[0]), functions) {
            Ok(number) => number,
            Err(errors) => { return Err(errors); },
        },
        _ => {
            let mut errors: Errors = Vec::new();
            let mut i: usize = 1;
            while i < meta_list.nested.len()
                invariant
                    1 <= i <= meta_list.nested@.len(),
                    error_views(errors@) == repeated(
                        fault(ErrorKind::ValidateCustomTailError),
                        (i - 1) as nat,
                    ),
                decreases meta_list.nested@.len() - i,
            {
                let ghost before = errors@;
                errors.push(Error::validate_custom_tail_error());
                proof {
                    assert(error_views(errors@) =~= error_views(before).push(
                        fault(ErrorKind::ValidateCustomTailError),
                    ));
                    assert(error_views(errors@) =~= repeated(
                        fault(ErrorKind::ValidateCustomTailError),
                        i as nat,
                    ));
                }
                i = i + 1;
            }
            return Err(errors);
        },
    };
    Ok(Check::new(Constraint::Custom(custom_fn)))
}

/// The validator that `custom(..)` declares: the custom check on the field as it is declared,
/// whatever its shape.
pub fn extract_generic_custom_validator(meta_list: &MetaList, functions: &[&str]) -> (found: Result<
    Validator,
    Errors,
>)
    ensures
        match custom_declared(*meta_list, functions@) {
            Ok(check) => found matches Ok(validator) && validator@ == ValidatorView::Normal(check),
            Err(errors) => found matches Err(faults) && error_views(faults@) == errors,
        },
{
    match inner_extract_generic_custom_validator(meta_list, functions) {
        Ok(check) => Ok(Validator::Normal(check)),
        Err(errors) => Err(errors),
    }
}

/// The candidate that an item of `enumerate(..)` gives, or the fault of the item.
pub open spec fn candidate(item: NestedMeta) -> Result<LiteralView, ErrorView> {
    match item {
        NestedMeta::Lit(Lit::Str(text)) => Ok(LiteralView::Str(text@)),
        NestedMeta::Lit(Lit::Int(number)) => Ok(LiteralView::Number(number)),
        NestedMeta::Lit(Lit::Bool(b)) => Ok(LiteralView::Bool(b)),
        NestedMeta::Lit(Lit::Other) => Err(fault(ErrorKind::LiteralNotSupport)),
        NestedMeta::Meta(_) => Err(fault(ErrorKind::LiteralOnly)),
    }
}

/// The candidates that the first `n` items give, in their order.
pub open spec fn candidates(items: Seq<NestedMeta>, n: nat) -> Seq<LiteralView>
    decreases n,
{
    if n == 0 || n > items.len() {
        Seq::empty()
    } else {
        match candidate(items[n - 1]) {
            Ok(literal) => candidates(items, (n - 1) as nat).push(literal),
            Err(_) => candidates(items, (n - 1) as nat),
        }
    }
}

/// The faults of the first `n` items, in their order.
pub open spec fn candidate_faults(items: Seq<NestedMeta>, n: nat) -> Seq<ErrorView>
    decreases n,
{
    if n == 0 || n > items.len() {
        Seq::empty()
    } else {
        match candidate(items[n - 1]) {
            Ok(_) => candidate_faults(items, (n - 1) as nat),
            Err(error) => candidate_faults(items, (n - 1) as nat).push(error),
        }
    }
}

/// What `enumerate(..)` declares: the candidates in their order. A list without items is a
/// fault, and so is every item that is no literal of a kind that can be a candidate.
pub open spec fn enumerate_declared(list: MetaList, message: MessageView) -> Declared {
    let items = list.nested@;
    if items.len() == 0 {
        refused(fault(ErrorKind::ValidateEnumerateNeedItem))
    } else if candidate_faults(items, items.len()).len() > 0 {
        Err(candidate_faults(items, items.len()))
    } else {
        declared(ConstraintView::Enumerate(candidates(items, items.len())), message)
    }
}

/// The check that `enumerate(..)` declares.
pub fn extract_generic_enumerate_validator(
    meta_list: &MetaList,
    message_fn: MessageSource,
) -> (found:
    Result<Check, Errors>)
    ensures
        gives_check(found, enumerate_declared(*meta_list, message_fn@)),
{
    if meta_list.nested.len() == 0 {
        return Err(one(Error::validate_enumerate_need_item()));
    }
    let mut literals: Vec<Literal> = Vec::new();
    let mut errors: Errors = Vec::new();
    let mut i: usize = 0;
    proof {
        assert(crate::error::generic::literal_views(literals@) =~= candidates(
            meta_list.nested@,
            0,
        ));
        assert(error_views(errors@) =~= candidate_faults(meta_list.nested@, 0));
    }
    while i < meta_list.nested.len()
        invariant
            i <= meta_list.nested@.len(),
            crate::error::generic::literal_views(literals@) == candidates(
                meta_list.nested@,
                i as nat,
            ),
            error_views(errors@) == candidate_faults(meta_list.nested@, i as nat),
        decreases meta_list.nested@.len() - i,
    {
        let ghost literals_before = literals@;
        let ghost errors_before = errors@;
        match &meta_list.nested[i] {
            NestedMeta::Lit(Lit::Str(text)) => literals.push(Literal::Str(text.clone())),
            NestedMeta::Lit(Lit::Int(number)) => literals.push(Literal::Number(*number)),
            NestedMeta::Lit(Lit::Bool(b)) => literals.push(Literal::Bool(*b)),
            NestedMeta::Lit(Lit::Other) => errors.push(Error::literal_not_support()),
            NestedMeta::Meta(_) => errors.push(Error::literal_only()),
        }
        proof {
            match candidate(meta_list.nested@[i as int]) {
                Ok(literal) => {
                    assert(crate::error::generic::literal_views(literals@)
                        =~= crate::error::generic::literal_views(literals_before).push(literal));
                },
                Err(error) => {
                    assert(error_views(errors@) =~= error_views(errors_before).push(error));
                },
            }
        }
        i = i + 1;
    }
    if errors.len() > 0 {
        Err(errors)
    } else {
        Ok(Check { constraint: Constraint::Enumerate(literals), message: message_fn })
    }
}

/// What a list `name(..)` inside `validate(..)` declares: a format, candidates or a custom
/// check, by its name. An unknown name is a fault that offers the names that are known.
pub open spec fn list_declared(
    list: MetaList,
    message: MessageView,
    functions: Seq<&str>,
) -> Declared {
    match MetaListValidation::spec_from_str(list.path@) {
        Some(MetaListValidation::Format) => format_declared(list, message, functions),
        Some(MetaListValidation::Enumerate) => enumerate_declared(list, message),
        Some(MetaListValidation::Custom) => custom_declared(list, functions),
        None => refused(unknown_type(list.path@, list_validation_names())),
    }
}

/// The names of the validations that are declared as a list.
pub open spec fn list_validation_names() -> Seq<&'static str> {
    seq!["format", "enumerate", "custom"]
}

/// The check that a list `name(..)` inside `validate(..)` declares.
pub fn extract_validator_from_nested_meta_list(
    validation_list: &MetaList,
    message_fn: MessageSource,
    functions: &[&str],
) -> (found: Result<Check, Errors>)
    ensures
        gives_check(found, list_declared(*validation_list, message_fn@, functions@)),
{
    match MetaListValidation::from_str(validation_list.path.as_str()) {
        Ok(MetaListValidation::Format) => inner_extract_string_format_validator(
            validation_list,
            message_fn,
            functions,
        ),
        Ok(MetaListValidation::Enumerate) => extract_generic_enumerate_validator(
            validation_list,
            message_fn,
        ),
        Ok(MetaListValidation::Custom) => inner_extract_generic_custom_validator(
            validation_list,
            functions,
        ),
        Err(unknown) => {
            let names: [&'static str; 3] = ["format", "enumerate", "custom"];
            assert(names@ =~= list_validation_names());
            Err(one(Error::validate_unknown_type(unknown.as_str(), names.as_slice())))
        },
    }
}

/// The names of the validations that are declared as a name and a value.
pub open spec fn name_value_validation_names() -> Seq<&'static str> {
    seq![
        "minimum",
        "maximum",
        "exclusive_minimum",
        "exclusive_maximum",
        "min_length",
        "max_length",
        "min_items",
        "max_items",
        "min_properties",
        "max_properties",
        "multiple_of",
        "pattern",
    ]
}

/// The constraint that a number gives under the name of a numeric validation.
pub open spec fn numeric_constraint(
    validation: MetaNameValueValidation,
    number: Number,
) -> ConstraintView {
    match validation {
        MetaNameValueValidation::Minimum => ConstraintView::Minimum(number),
        MetaNameValueValidation::Maximum => ConstraintView::Maximum(number),
        MetaNameValueValidation::ExclusiveMinimum => ConstraintView::ExclusiveMinimum(number),
        MetaNameValueValidation::ExclusiveMaximum => ConstraintView::ExclusiveMaximum(number),
        _ => ConstraintView::MultipleOf(number),
    }
}

/// The constraint that a count gives under the name of a validation of lengths and sizes.
pub open spec fn count_constraint(validation: MetaNameValueValidation, n: nat) -> ConstraintView {
    match validation {
        MetaNameValueValidation::MinLength => ConstraintView::MinLength(n),
        MetaNameValueValidation::MaxLength => ConstraintView::MaxLength(n),
        MetaNameValueValidation::MinItems => ConstraintView::MinItems(n),
        MetaNameValueValidation::MaxItems => ConstraintView::MaxItems(n),
        MetaNameValueValidation::MinProperties => ConstraintView::MinProperties(n),
        _ => ConstraintView::MaxProperties(n),
    }
}

/// Whether a validation takes a number as it is written.
pub open spec fn takes_number(validation: MetaNameValueValidation) -> bool {
    validation is Minimum || validation is Maximum || validation is ExclusiveMinimum
        || validation is ExclusiveMaximum || validation is MultipleOf
}

/// What a pattern literal declares: the pattern of that source among the compiled patterns of
/// the caller. A literal that is no text is a fault, and so is a source that is not among them.
pub open spec fn pattern_declared(
    lit: Lit,
    message: MessageView,
    patterns: Seq<Seq<char>>,
) -> Declared {
    match text(lit) {
        Ok(source) => if patterns.contains(source) {
            declared(ConstraintView::Pattern(source), message)
        } else {
            refused(fault_of(ErrorKind::PatternNotFound, source))
        },
        Err(errors) => Err(errors),
    }
}

/// What `name = literal` inside `validate(..)` declares: a bound, a length or size, or a
/// pattern, by its name. An unknown name is a fault that offers the names that are known, and a
/// literal of the wrong kind is one.
pub open spec fn name_value_declared(
    name_value: MetaNameValue,
    message: MessageView,
    patterns: Seq<Seq<char>>,
) -> Declared {
    match MetaNameValueValidation::spec_from_str(name_value.path@) {
        Some(MetaNameValueValidation::Pattern) => pattern_declared(
            name_value.lit,
            message,
            patterns,
        ),
        Some(validation) => if takes_number(validation) {
            match numeric(name_value.lit) {
                Ok(number) => declared(numeric_constraint(validation, number), message),
                Err(errors) => Err(errors),
            }
        } else {
            match count(name_value.lit) {
                Ok(n) => declared(count_constraint(validation, n as nat), message),
                Err(errors) => Err(errors),
            }
        },
        None => refused(unknown_type(name_value.path@, name_value_validation_names())),
    }
}

/// The pattern check that a literal declares.
pub fn inner_extract_string_pattern_validator(
    validation_value: &Lit,
    message_fn: MessageSource,
    patterns: &PatternCache,
) -> (found: Result<Check, Errors>)
    ensures
        gives_check(found, pattern_declared(*validation_value, message_fn@, patterns.sources())),
{
    let pattern: &str = match get_str(validation_value) {
        Ok(source) => source,
        Err(errors) => { return Err(errors); },
    };
    match patterns.find(pattern) {
        Some(slot) => Ok(
            Check {
                constraint: Constraint::Pattern(patterns.get(slot).clone()),
                message: message_fn,
            },
        ),
        None => Err(one(Error::pattern_not_found(pattern))),
    }
}

/// The validator that a pattern literal declares on a field of the given shape.
pub fn extract_string_pattern_validator(
    shape: &Shape,
    validation_value: &Lit,
    message_fn: MessageSource,
    patterns: &PatternCache,
) -> (found: Result<Validator, Errors>)
    ensures
        match pattern_declared(*validation_value, message_fn@, patterns.sources()) {
            Ok(check) => found matches Ok(validator) && validator@ == validator_view_for(
                check,
                *shape,
            ),
            Err(errors) => found matches Err(faults) && error_views(faults@) == errors,
        },
{
    match inner_extract_string_pattern_validator(validation_value, message_fn, patterns) {
        Ok(check) => Ok(Validator::new(check, shape)),
        Err(errors) => Err(errors),
    }
}

/// The validator that `pattern = "text"` declares on a field of the given shape where no
/// message is declared with it: the check has the message of its kind.
pub fn extract_string_pattern_validator_from_meta_name_value(
    shape: &Shape,
    lit: &Lit,
    patterns: &PatternCache,
) -> (found: Result<Validator, Errors>)
    ensures
        match pattern_declared(*lit, MessageView::Default, patterns.sources()) {
            Ok(check) => found matches Ok(validator) && validator@ == validator_view_for(
                check,
                *shape,
            ),
            Err(errors) => found matches Err(faults) && error_views(faults@) == errors,
        },
{
    extract_string_pattern_validator(shape, lit, MessageSource::Default, patterns)
}

/// The check that `name = literal` inside `validate(..)` declares.
pub fn extract_validator_from_nested_meta_name_value(
    name_value: &MetaNameValue,
    message_fn: MessageSource,
    patterns: &PatternCache,
) -> (found: Result<Check, Errors>)
    ensures
        gives_check(found, name_value_declared(*name_value, message_fn@, patterns.sources())),
{
    let validation: MetaNameValueValidation = match MetaNameValueValidation::from_str(
        name_value.path.as_str(),
    ) {
        Ok(validation) => validation,
        Err(unknown) => {
            let names: [&'static str; 12] = [
                "minimum",
                "maximum",
                "exclusive_minimum",
                "exclusive_maximum",
                "min_length",
                "max_length",
                "min_items",
                "max_items",
                "min_properties",
                "max_properties",
                "multiple_of",
                "pattern",
            ];
            assert(names@ =~= name_value_validation_names());
            return Err(one(Error::validate_unknown_type(unknown.as_str(), names.as_slice())));
        },
    };
    match validation {
        MetaNameValueValidation::Pattern => inner_extract_string_pattern_validator(
            &name_value.lit,
            message_fn,
            patterns,
        ),
        MetaNameValueValidation::Minimum => match get_numeric(&name_value.lit) {
            Ok(number) => Ok(
                Check { constraint: Constraint::Minimum(number), message: message_fn },
            ),
            Err(errors) => Err(errors),
        },
        MetaNameValueValidation::Maximum => match get_numeric(&name_value.lit) {
            Ok(number) => Ok(
                Check { constraint: Constraint::Maximum(number), message: message_fn },
            ),
            Err(errors) => Err(errors),
        },
        MetaNameValueValidation::ExclusiveMinimum => match get_numeric(&name_value.lit) {
            Ok(number) => Ok(
                Check { constraint: Constraint::ExclusiveMinimum(number), message: message_fn },
            ),
            Err(errors) => Err(errors),
        },
        MetaNameValueValidation::ExclusiveMaximum => match get_numeric(&name_value.lit) {
            Ok(number) => Ok(
                Check { constraint: Constraint::ExclusiveMaximum(number), message: message_fn },
            ),
            Err(errors) => Err(errors),
        },
        MetaNameValueValidation::MultipleOf => match get_numeric(&name_value.lit) {
            Ok(number) => Ok(
                Check { constraint: Constraint::MultipleOf(number), message: message_fn },
            ),
            Err(errors) => Err(errors),
        },
        MetaNameValueValidation::MinLength => match get_count(&name_value.lit) {
            Ok(n) => Ok(Check { constraint: Constraint::MinLength(n), message: message_fn }),
            Err(errors) => Err(errors),
        },
        MetaNameValueValidation::MaxLength => match get_count(&name_value.lit) {
            Ok(n) => Ok(Check { constraint: Constraint::MaxLength(n), message: message_fn }),
            Err(errors) => Err(errors),
        },
        MetaNameValueValidation::MinItems => match get_count(&name_value.lit) {
            Ok(n) => Ok(Check { constraint: Constraint::MinItems(n), message: message_fn }),
            Err(errors) => Err(errors),
        },
        MetaNameValueValidation::MaxItems => match get_count(&name_value.lit) {
            Ok(n) => Ok(Check { constraint: Constraint::MaxItems(n), message: message_fn }),
            Err(errors) => Err(errors),
        },
        MetaNameValueValidation::MinProperties => match get_count(&name_value.lit) {
            Ok(n) => Ok(Check { constraint: Constraint::MinProperties(n), message: message_fn }),
            Err(errors) => Err(errors),
        },
        MetaNameValueValidation::MaxProperties => match get_count(&name_value.lit) {
            Ok(n) => Ok(Check { constraint: Constraint::MaxProperties(n), message: message_fn }),
            Err(errors) => Err(errors),
        },
    }
}

/// The names of the validations that are declared as a bare name.
pub open spec fn path_validation_names() -> Seq<&'static str> {
    seq!["unique_items"]
}

/// What a bare name inside `validate(..)` declares.
pub open spec fn path_declared(path: Seq<char>, message: MessageView) -> Declared {
    match MetaPathValidation::spec_from_str(path) {
        Some(MetaPathValidation::UniqueItems) => declared(ConstraintView::UniqueItems, message),
        None => refused(unknown_type(path, path_validation_names())),
    }
}

/// The check that a bare name inside `validate(..)` declares.
pub fn extract_validator_from_nested_meta_path(
    path: &str,
    message_fn: MessageSource,
) -> (found: Result<
    Check,
    Errors,
>)
    ensures
        gives_check(found, path_declared(path@, message_fn@)),
{
    match MetaPathValidation::from_str(path) {
        Ok(MetaPathValidation::UniqueItems) => Ok(
            Check { constraint: Constraint::UniqueItems, message: message_fn },
        ),
        Err(unknown) => {
            let names: [&'static str; 1] = ["unique_items"];
            assert(names@ =~= path_validation_names());
            Err(one(Error::validate_unknown_type(unknown.as_str(), names.as_slice())))
        },
    }
}

/// The names of the message declarations that are a list.
pub open spec fn list_message_names() -> Seq<&'static str> {
    seq!["message_fn"]
}

/// The names of the message declarations that are a name and a value.
pub open spec fn name_value_message_names() -> Seq<&'static str> {
    seq!["message"]
}

/// The message function that the items of `message_fn(..)` name: one bare name.
pub open spec fn message_fn_declared(nested: Seq<NestedMeta>, functions: Seq<&str>) -> Result<
    MessageView,
    Seq<ErrorView>,
> {
    if nested.len() == 0 {
        refused(fault(ErrorKind::MessageFnNeedItem))
    } else if nested.len() == 1 {
        match nested[0] {
            NestedMeta::Meta(Meta::Path(name)) => match index_of(functions, name@, 0) {
                Some(k) => Ok(MessageView::Function(k as usize)),
                None => refused(fault_of(ErrorKind::FunctionNotFound, name@)),
            },
            _ => refused(fault(ErrorKind::MessageFnAllowNamePath)),
        }
    } else {
        Err(repeated(fault(ErrorKind::MessageFnTailError), (nested.len() - 1) as nat))
    }
}

/// The message that the second item of `validate(..)` declares: `message_fn(name)` or
/// `message = "text"`.
pub open spec fn message_declared(item: NestedMeta, functions: Seq<&str>) -> Result<
    MessageView,
    Seq<ErrorView>,
> {
    match item {
        NestedMeta::Meta(Meta::List(list)) => match MetaListMessage::spec_from_str(list.path@) {
            Some(MetaListMessage::MessageFn) => message_fn_declared(list.nested@, functions),
            None => refused(unknown_type(list.path@, list_message_names())),
        },
        NestedMeta::Meta(Meta::NameValue(name_value)) => match MetaNameValueMessage::spec_from_str(
            name_value.path@,
        ) {
            Some(MetaNameValueMessage::Message) => match text(name_value.lit) {
                Ok(message) => Ok(MessageView::Text(message)),
                Err(errors) => Err(errors),
            },
            None => refused(unknown_type(name_value.path@, name_value_message_names())),
        },
        NestedMeta::Meta(Meta::Path(_)) => refused(fault(ErrorKind::MetaPathNotSupport)),
        NestedMeta::Lit(_) => refused(fault(ErrorKind::LiteralNotSupport)),
    }
}

/// Whether an exec result is the message that a declaration is said to give.
pub open spec fn gives_message(
    found: Result<MessageSource, Errors>,
    expected: Result<MessageView, Seq<ErrorView>>,
) -> bool {
    match expected {
        Ok(message) => found matches Ok(made) && made@ == message,
        Err(errors) => found matches Err(faults) && error_views(faults@) == errors,
    }
}

/// The message function that the items of `message_fn(..)` name.
fn extract_message_fn(nested: &Vec<NestedMeta>, functions: &[&str]) -> (found: Result<
    MessageSource,
    Errors,
>)
    ensures
        gives_message(found, message_fn_declared(nested@, functions@)),
{
    match nested.len() {
        0 => Err(one(Error::message_fn_need_item())),
        1 => match &nested[0] {
            NestedMeta::Meta(Meta::Path(name)) => match function_number(name.as_str(), functions) {
                Some(number) => Ok(MessageSource::Function(number)),
                None => Err(one(Error::function_not_found(name.as_str()))),
            },
            _ => Err(one(Error::message_fn_allow_name_path())),
        },
        _ => {
            let mut errors: Errors = Vec::new();
            let mut i: usize = 1;
            while i < nested.len()
                invariant
                    1 <= i <= nested@.len(),
                    error_views(errors@) == repeated(
                        fault(ErrorKind::MessageFnTailError),
                        (i - 1) as nat,
                    ),
                decreases nested@.len() - i,
            {
                let ghost before = errors@;
                errors.push(Error::message_fn_tail_error());
                proof {
                    assert(error_views(errors@) =~= error_views(before).push(
                        fault(ErrorKind::MessageFnTailError),
                    ));
                    assert(error_views(errors@) =~= repeated(
                        fault(ErrorKind::MessageFnTailError),
                        i as nat,
                    ));
                }
                i = i + 1;
            }
            Err(errors)
        },
    }
}

/// The message that the second item of `validate(..)` declares.
pub fn extract_message_fn_tokens(nested_meta: &NestedMeta, functions: &[&str]) -> (found: Result<
    MessageSource,
    Errors,
>)
    ensures
        gives_message(found, message_declared(*nested_meta, functions@)),
{
    match nested_meta {
        NestedMeta::Meta(Meta::List(list)) => match MetaListMessage::from_str(list.path.as_str()) {
            Ok(MetaListMessage::MessageFn) => extract_message_fn(&list.nested, functions),
            Err(unknown) => {
                let names: [&'static str; 1] = ["message_fn"];
                assert(names@ =~= list_message_names());
                Err(one(Error::validate_unknown_type(unknown.as_str(), names.as_slice())))
            },
        },
        NestedMeta::Meta(Meta::NameValue(name_value)) => match MetaNameValueMessage::from_str(
            name_value.path.as_str(),
        ) {
            Ok(MetaNameValueMessage::Message) => match get_str(&name_value.lit) {
                Ok(message) => Ok(MessageSource::Text(message.to_owned())),
                Err(errors) => Err(errors),
            },
            Err(unknown) => {
                let names: [&'static str; 1] = ["message"];
                assert(names@ =~= name_value_message_names());
                Err(one(Error::validate_unknown_type(unknown.as_str(), names.as_slice())))
            },
        },
        NestedMeta::Meta(Meta::Path(_)) => Err(one(Error::meta_path_not_support())),
        NestedMeta::Lit(_) => Err(one(Error::literal_not_support())),
    }
}

/// The message that the items of `validate(..)` declare, and the faults of its declaration:
/// nothing where there is one item or none, what the second item declares where there are two,
/// and a fault for each item after the first where there are more.
pub open spec fn list_message(nested: Seq<NestedMeta>, functions: Seq<&str>) -> (
    MessageView,
    Seq<ErrorView>,
) {
    if nested.len() <= 1 {
        (MessageView::Default, Seq::empty())
    } else if nested.len() == 2 {
        match message_declared(nested[1], functions) {
            Ok(message) => (message, Seq::empty()),
            Err(errors) => (MessageView::Default, errors),
        }
    } else {
        (
            MessageView::Default,
            repeated(fault(ErrorKind::TooManyListItems), (nested.len() - 1) as nat),
        )
    }
}

/// What the first item of `validate(..)` declares.
pub open spec fn item_declared(
    item: NestedMeta,
    message: MessageView,
    functions: Seq<&str>,
    patterns: Seq<Seq<char>>,
) -> Declared {
    match item {
        NestedMeta::Meta(Meta::Path(path)) => path_declared(path@, message),
        NestedMeta::Meta(Meta::List(list)) => list_declared(list, message, functions),
        NestedMeta::Meta(Meta::NameValue(name_value)) => name_value_declared(
            name_value,
            message,
            patterns,
        ),
        NestedMeta::Lit(_) => refused(fault(ErrorKind::ValidateMetaLiteralNotSupport)),
    }
}

/// What `validate(..)` declares: the check of its first item with the message of its second.
///
/// All faults are reported together: those of the message first, then those of the check. A
/// list without items is the fault that a validation is needed.
pub open spec fn meta_list_declared(
    list: MetaList,
    functions: Seq<&str>,
    patterns: Seq<Seq<char>>,
) -> Declared {
    let nested = list.nested@;
    let message = list_message(nested, functions);
    if nested.len() == 0 {
        refused(fault(ErrorKind::ValidateNeedType))
    } else {
        match item_declared(nested[0], message.0, functions, patterns) {
            Ok(check) => if message.1.len() == 0 {
                Ok(check)
            } else {
                Err(message.1)
            },
            Err(errors) => Err(message.1 + errors),
        }
    }
}

/// The check that one item of `validate(..)` declares, with the given message.
fn extract_validator_from_item(
    item: &NestedMeta,
    message_fn: MessageSource,
    functions: &[&str],
    patterns: &PatternCache,
) -> (found: Result<Check, Errors>)
    ensures
        gives_check(found, item_declared(*item, message_fn@, functions@, patterns.sources())),
{
    match item {
        NestedMeta::Meta(meta) => match meta {
            Meta::Path(path) => extract_validator_from_nested_meta_path(path.as_str(), message_fn),
            Meta::List(list) => extract_validator_from_nested_meta_list(
                list,
                message_fn,
                functions,
            ),
            Meta::NameValue(name_value) => extract_validator_from_nested_meta_name_value(
                name_value,
                message_fn,
                patterns,
            ),
        },
        NestedMeta::Lit(_) => Err(one(Error::validate_meta_literal_not_support())),
    }
}

/// The check that `validate(..)` declares.
pub fn inner_extract_validator_from_meta_list(
    meta_list: &MetaList,
    functions: &[&str],
    patterns: &PatternCache,
) -> (found: Result<Check, Errors>)
    ensures
        gives_check(found, meta_list_declared(*meta_list, functions@, patterns.sources())),
{
    let nested = &meta_list.nested;
    let mut errors: Errors = Vec::new();
    proof {
        assert(error_views(errors@) =~= Seq::<ErrorView>::empty());
    }
    let message_fn: MessageSource = match nested.len() {
        0 => MessageSource::Default,
        1 => MessageSource::Default,
        2 => match extract_message_fn_tokens(&nested[1], functions) {
            Ok(message_fn) => message_fn,
            Err(message_fn_errors) => {
                errors = message_fn_errors;
                MessageSource::Default
            },
        },
        _ => {
            let mut i: usize = 1;
            proof {
                assert(error_views(errors@) =~= repeated(fault(ErrorKind::TooManyListItems), 0));
            }
            while i < nested.len()
                invariant
                    1 <= i <= nested@.len(),
                    error_views(errors@) == repeated(
                        fault(ErrorKind::TooManyListItems),
                        (i - 1) as nat,
                    ),
                decreases nested@.len() - i,
            {
                let ghost before = errors@;
                errors.push(Error::too_many_list_items());
                proof {
                    assert(error_views(errors@) =~= error_views(before).push(
                        fault(ErrorKind::TooManyListItems),
                    ));
                    assert(error_views(errors@) =~= repeated(
                        fault(ErrorKind::TooManyListItems),
                        i as nat,
                    ));
                }
                i = i + 1;
            }
            MessageSource::Default
        },
    };
    assert(message_fn@ == list_message(nested@, functions@).0);
    assert(error_views(errors@) == list_message(nested@, functions@).1);
    if nested.len() > 0 {
        match extract_validator_from_item(&nested[0], message_fn, functions, patterns) {
            Ok(check) => {
                if errors.len() == 0 {
                    Ok(check)
                } else {
                    Err(errors)
                }
            },
            Err(validator_errors) => {
                let mut validator_errors = validator_errors;
                let ghost first = errors@;
                let ghost second = validator_errors@;
                errors.append(&mut validator_errors);
                proof {
                    assert(error_views(errors@) =~= error_views(first) + error_views(second));
                }
                Err(errors)
            },
        }
    } else {
        Err(one(Error::validate_need_type()))
    }
}

/// The validator that `validate(..)` declares on a field of the given shape.
pub fn extract_validator_from_meta_list(
    shape: &Shape,
    meta_list: &MetaList,
    functions: &[&str],
    patterns: &PatternCache,
) -> (found: Result<Validator, Errors>)
    ensures
        gives_validator(
            found,
            meta_list_declared(*meta_list, functions@, patterns.sources()),
            *shape,
        ),
{
    match inner_extract_validator_from_meta_list(meta_list, functions, patterns) {
        Ok(check) => Ok(for_shape(check, shape)),
        Err(errors) => Err(errors),
    }
}

/// The validator of a declared check on a field of a shape: a custom check stays on the field as
/// it is declared; every other check goes to the values that the shape leads to.
pub open spec fn placed(check: CheckView, shape: Shape) -> ValidatorView {
    if check.constraint is Custom {
        ValidatorView::Normal(check)
    } else {
        validator_view_for(check, shape)
    }
}

/// Whether an exec result is the validator that a declaration is said to give.
pub open spec fn gives_validator(
    found: Result<Validator, Errors>,
    expected: Declared,
    shape: Shape,
) -> bool {
    match expected {
        Ok(check) => found matches Ok(validator) && validator@ == placed(check, shape),
        Err(errors) => found matches Err(faults) && error_views(faults@) == errors,
    }
}

/// The validator of a declared check on a field of a shape.
pub fn for_shape(check: Check, shape: &Shape) -> (validator: Validator)
    ensures
        validator@ == placed(check@, *shape),
{
    match &check.constraint {
        Constraint::Custom(_) => Validator::Normal(check),
        _ => Validator::new(check, shape),
    }
}

/// What one attribute declares by itself, given what reading the attribute gave: the
/// declaration inside it, or the text of the fault that kept it from being read.
///
/// `#[validate(..)]` declares the check of its first item, with the message of the check's
/// kind; the items after the first are not read. A list without items is the fault that a
/// validator is needed. A bare `#[validate]` declares that the value is a struct to validate in
/// turn. An attribute of the form `#[validate = ..]` is a fault, and so is one that could not
/// be read, which is reported with the text of its fault.
pub open spec fn meta_declared(
    attribute: Result<Meta, String>,
    functions: Seq<&str>,
    patterns: Seq<Seq<char>>,
) -> Declared {
    match attribute {
        Ok(Meta::List(list)) => if list.nested@.len() == 0 {
            refused(fault(ErrorKind::ValidateNeedValidator))
        } else {
            item_declared(list.nested@[0], MessageView::Default, functions, patterns)
        },
        Ok(Meta::Path(_)) => declared(ConstraintView::Nested, MessageView::Default),
        Ok(Meta::NameValue(_)) => refused(fault(ErrorKind::ValidateMetaNameValueNotSupport)),
        Err(parse_error) => refused(
            fault_of(ErrorKind::ValidateAttributeParseError, parse_error@),
        ),
    }
}

/// The validator that one attribute declares by itself on a field of the given shape: that of
/// the first item of `#[validate(..)]`, whatever follows the item.
pub fn extract_meta_validator(
    shape: &Shape,
    attribute: &Result<Meta, String>,
    functions: &[&str],
    patterns: &PatternCache,
) -> (found: Result<Validator, Errors>)
    ensures
        gives_validator(
            found,
            meta_declared(*attribute, functions@, patterns.sources()),
            *shape,
        ),
{
    match attribute {
        Ok(Meta::List(list)) => {
            if list.nested.len() == 0 {
                Err(one(Error::validate_need_validator()))
            } else {
                match extract_validator_from_item(
                    &list.nested[0],
                    MessageSource::Default,
                    functions,
                    patterns,
                ) {
                    Ok(check) => Ok(for_shape(check, shape)),
                    Err(errors) => Err(errors),
                }
            }
        },
        Ok(Meta::Path(_)) => Ok(for_shape(Check::new(Constraint::Nested), shape)),
        Ok(Meta::NameValue(_)) => Err(one(Error::validate_meta_name_value_not_support())),
        Err(parse_error) => Err(
            one(Error::validate_attribute_parse_error(parse_error.as_str())),
        ),
    }
}

/// What one attribute of a field declares when the field's attributes are collected: a
/// `#[validate(..)]` is read whole, so that the check of its first item has the message that its
/// second item declares, as [`meta_list_declared`] says; every other attribute declares what it
/// declares by itself.
pub open spec fn attribute_declared(
    attribute: Result<Meta, String>,
    functions: Seq<&str>,
    patterns: Seq<Seq<char>>,
) -> Declared {
    match attribute {
        Ok(Meta::List(list)) => meta_list_declared(list, functions, patterns),
        _ => meta_declared(attribute, functions, patterns),
    }
}

/// The validator that one attribute of a field declares when the field's attributes are
/// collected.
pub fn extract_attribute_validator(
    shape: &Shape,
    attribute: &Result<Meta, String>,
    functions: &[&str],
    patterns: &PatternCache,
) -> (found: Result<Validator, Errors>)
    ensures
        gives_validator(
            found,
            attribute_declared(*attribute, functions@, patterns.sources()),
            *shape,
        ),
{
    match attribute {
        Ok(Meta::List(list)) => extract_validator_from_meta_list(shape, list, functions, patterns),
        _ => extract_meta_validator(shape, attribute, functions, patterns),
    }
}

} // verus!
