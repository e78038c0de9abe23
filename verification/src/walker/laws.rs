use super::context::{outcome, Context};
use super::walk::{
    check_errors, element_errors, field_errors, fields_errors, flattened, plain_errors,
    record_errors, rules_errors, validation_errors,
};
use crate::validation::error::errors::{is_empty, slot};
use crate::validation::error::well_formed::{
    items_well_formed, lemma_lists_well_formed, lemma_merged_well_formed,
    lemma_with_error_properties, lemma_with_errors_properties, list_well_formed,
    properties_well_formed, well_formed,
};
use crate::validation::{ArrayErrorsView, Error, ErrorView, ErrorsView};
use crate::validator::{
    validator_for, validators_view, with_validator, Check, Constraint, Shape, ValidatorsView,
};
use crate::value::{Field, Record, Rule, Value};
use vstd::prelude::*;

verus! {

/// No check but a custom predicate reports anything on an optional that is unset.
pub proof fn lemma_unset_optional_plain<
    P: Fn(usize, &Value) -> Result<(), String>,
    M: Fn(usize, &Error) -> String,
>(checks: Seq<Check>, context: Context<P, M>, n: nat)
    requires
        n <= checks.len(),
        forall|i: int| 0 <= i < n ==> !((#[trigger] checks[i]).constraint is Custom),
    ensures
        plain_errors(checks, Value::Optional(None), context, n) == Seq::<ErrorView>::empty(),
    decreases n,
{
    if n > 0 {
        lemma_unset_optional_plain(checks, context, (n - 1) as nat);
        assert(check_errors(checks[n - 1], Value::Optional(None), context) =~= Seq::<
            ErrorView,
        >::empty());
    }
}

/// An optional that is unset contributes no error, whatever is declared for its content, for
/// elements, and for the optional itself. The one exception is left out: a custom predicate
/// that is declared on the optional itself is asked about it like about any value.
pub proof fn lemma_unset_optional<
    P: Fn(usize, &Value) -> Result<(), String>,
    M: Fn(usize, &Error) -> String,
>(validators: ValidatorsView, context: Context<P, M>)
    requires
        forall|i: int|
            0 <= i < validators.checks.len() ==> !((
            #[trigger] validators.checks[i]).constraint is Custom),
    ensures
        field_errors(Value::Optional(None), validators, context) == ErrorsView::NewType(
            Seq::empty(),
        ),
{
    lemma_unset_optional_plain(validators.checks, context, validators.checks.len());
}

/// A check that is declared on a field of optional shape is kept for the content of the
/// optional: it adds nothing to the checks on the optional itself.
pub proof fn lemma_optional_shape_keeps_checks(
    validators: ValidatorsView,
    check: Check,
    content: crate::validator::Shape,
)
    ensures
        crate::validator::with_validator(
            validators,
            crate::validator::validator_for(
                check,
                crate::validator::Shape::Optional(Box::new(content)),
            ),
        ).checks == validators.checks,
{
}

/// What one check reports is well formed.
pub proof fn lemma_check_errors_well_formed<
    P: Fn(usize, &Value) -> Result<(), String>,
    M: Fn(usize, &Error) -> String,
>(
    check: Check,
    value: Value,
    context: Context<P, M>,
)
    ensures
        list_well_formed(check_errors(check, value, context)),
    decreases value, 1nat, 0nat,
{
    match check.constraint {
        Constraint::Nested => match value {
            Value::Nested(record) => {
                lemma_record_errors_well_formed(record, value, context);
            },
            _ => {},
        },
        _ => {},
    }
}

/// What the checks on a value report is well formed.
pub proof fn lemma_plain_errors_well_formed<
    P: Fn(usize, &Value) -> Result<(), String>,
    M: Fn(usize, &Error) -> String,
>(
    checks: Seq<Check>,
    value: Value,
    context: Context<P, M>,
    n: nat,
)
    ensures
        list_well_formed(plain_errors(checks, value, context, n)),
    decreases value, 2nat, n,
{
    if n == 0 || n > checks.len() {
    } else {
        lemma_plain_errors_well_formed(checks, value, context, (n - 1) as nat);
        lemma_check_errors_well_formed(checks[n - 1], value, context);
        lemma_lists_well_formed(
            plain_errors(checks, value, context, (n - 1) as nat),
            check_errors(checks[n - 1], value, context),
        );
    }
}

/// The result of validating a value against its checks is well formed, and is a bare list or an
/// array result: no index occurs twice in it, and no index is present without an error.
pub proof fn lemma_field_errors_well_formed<
    P: Fn(usize, &Value) -> Result<(), String>,
    M: Fn(usize, &Error) -> String,
>(
    value: Value,
    validators: ValidatorsView,
    context: Context<P, M>,
)
    ensures
        well_formed(field_errors(value, validators, context)),
        !(field_errors(value, validators, context) is Object),
    decreases value, 3nat, 0nat,
{
    lemma_plain_errors_well_formed(validators.checks, value, context, validators.checks.len());
    let own = ErrorsView::NewType(
        plain_errors(validators.checks, value, context, validators.checks.len()),
    );
    match value {
        Value::Optional(Some(content)) => match validators.optional {
            Some(level) => {
                lemma_field_errors_well_formed(*content, *level, context);
                lemma_merged_well_formed(own, field_errors(*content, *level, context));
            },
            None => {},
        },
        Value::Sequence(elements) => match validators.array {
            Some(level) => {
                lemma_element_errors_well_formed(elements, *level, context, elements@.len());
                let items = element_errors(elements, *level, context, elements@.len());
                if items.len() > 0 {
                    let found = ErrorsView::Array(
                        ArrayErrorsView { errors: Seq::empty(), items },
                    );
                    lemma_merged_well_formed(own, found);
                }
            },
            None => {},
        },
        _ => {},
    }
}

/// The results of the elements of a sequence are well formed: the indices rise, each is the
/// index of an element that has errors.
pub proof fn lemma_element_errors_well_formed<
    P: Fn(usize, &Value) -> Result<(), String>,
    M: Fn(usize, &Error) -> String,
>(
    elements: Vec<Value>,
    level: ValidatorsView,
    context: Context<P, M>,
    n: nat,
)
    ensures
        items_well_formed(element_errors(elements, level, context, n)),
        forall|i: int|
            0 <= i < element_errors(elements, level, context, n).len() ==> (
            #[trigger] element_errors(elements, level, context, n)[i]).0 < n,
    decreases elements, 0nat, n,
{
    if n == 0 || n > elements@.len() {
    } else {
        lemma_element_errors_well_formed(elements, level, context, (n - 1) as nat);
        lemma_field_errors_well_formed(elements@[n - 1], level, context);
        let before = element_errors(elements, level, context, (n - 1) as nat);
        let found = field_errors(elements@[n - 1], level, context);
        let after = element_errors(elements, level, context, n);
        if !is_empty(found) {
            assert(after == before.push(((n - 1) as nat, found)));
            assert forall|i: int, j: int| 0 <= i < j < after.len() implies after[i].0
                != after[j].0 by {
                assert(after[i] == before[i]);
                if j < before.len() {
                    assert(after[j] == before[j]);
                }
            }
            assert forall|i: int| 0 <= i < after.len() implies !is_empty((#[trigger] after[i]).1)
                && well_formed(after[i].1) by {
                if i < before.len() {
                    assert(after[i] == before[i]);
                }
            }
            assert forall|i: int| 0 <= i < after.len() implies (#[trigger] after[i]).0 < n by {
                if i < before.len() {
                    assert(after[i] == before[i]);
                }
            }
        }
    }
}

/// The errors of the fields of a struct are well formed.
pub proof fn lemma_fields_errors_well_formed<
    P: Fn(usize, &Value) -> Result<(), String>,
    M: Fn(usize, &Error) -> String,
>(
    fields: Vec<Field>,
    context: Context<P, M>,
    n: nat,
)
    ensures
        properties_well_formed(fields_errors(fields, context, n)),
    decreases fields, 0nat, n,
{
    if n == 0 || n > fields@.len() {
    } else {
        lemma_fields_errors_well_formed(fields, context, (n - 1) as nat);
        let found = field_errors(
            fields@[n - 1].value,
            validators_view(fields@[n - 1].validators),
            context,
        );
        lemma_field_errors_well_formed(
            fields@[n - 1].value,
            validators_view(fields@[n - 1].validators),
            context,
        );
        lemma_with_errors_properties(
            fields_errors(fields, context, (n - 1) as nat),
            fields@[n - 1].name@,
            slot(found),
        );
    }
}

/// Asking the rules keeps the errors of the fields well formed.
pub proof fn lemma_rules_errors_well_formed<
    P: Fn(usize, &Value) -> Result<(), String>,
    M: Fn(usize, &Error) -> String,
>(
    entries: Seq<(Seq<char>, Seq<ErrorView>)>,
    rules: Seq<Rule>,
    whole: Value,
    context: Context<P, M>,
    n: nat,
)
    requires
        properties_well_formed(entries),
    ensures
        properties_well_formed(rules_errors(entries, rules, whole, context, n)),
    decreases n,
{
    if n == 0 || n > rules.len() {
    } else {
        lemma_rules_errors_well_formed(entries, rules, whole, context, (n - 1) as nat);
        match outcome(context.predicates, rules[n - 1].predicate, whole) {
            Ok(_) => {},
            Err(text) => {
                lemma_with_error_properties(
                    rules_errors(entries, rules, whole, context, (n - 1) as nat),
                    rules[n - 1].key@,
                    ErrorView::Custom(text),
                );
            },
        }
    }
}

/// The lists of well-formed entries, one after another, are a well-formed list, and not an
/// empty one where there is an entry.
pub proof fn lemma_flattened_well_formed(entries: Seq<(Seq<char>, Seq<ErrorView>)>, n: nat)
    requires
        properties_well_formed(entries),
        n <= entries.len(),
    ensures
        list_well_formed(flattened(entries, n)),
        n > 0 ==> flattened(entries, n).len() > 0,
    decreases n,
{
    if n > 0 {
        lemma_flattened_well_formed(entries, (n - 1) as nat);
        lemma_lists_well_formed(flattened(entries, (n - 1) as nat), entries[n - 1].1);
    }
}

/// The result of validating a struct, where there is one, is well formed and holds at least one
/// error: no field name occurs twice in it, and no name is present without an error.
pub proof fn lemma_record_errors_well_formed<
    P: Fn(usize, &Value) -> Result<(), String>,
    M: Fn(usize, &Error) -> String,
>(
    record: Record,
    whole: Value,
    context: Context<P, M>,
)
    ensures
        match record_errors(record, whole, context) {
            Some(errors) => well_formed(errors) && !is_empty(errors) && list_well_formed(
                slot(errors),
            ),
            None => true,
        },
    decreases record, 0nat, 0nat,
{
    lemma_fields_errors_well_formed(record.fields, context, record.fields@.len());
    let of_fields = fields_errors(record.fields, context, record.fields@.len());
    lemma_rules_errors_well_formed(
        of_fields,
        record.rules@,
        whole,
        context,
        record.rules@.len(),
    );
    let entries = rules_errors(of_fields, record.rules@, whole, context, record.rules@.len());
    if entries.len() > 0 {
        lemma_flattened_well_formed(entries, entries.len());
    }
}

/// Validation gives results that are well formed and never empty.
pub proof fn lemma_validation_errors_well_formed<
    P: Fn(usize, &Value) -> Result<(), String>,
    M: Fn(usize, &Error) -> String,
>(
    value: Value,
    context: Context<P, M>,
)
    ensures
        match validation_errors(value, context) {
            Some(errors) => well_formed(errors) && !is_empty(errors),
            None => true,
        },
{
    match value {
        Value::Nested(record) => {
            lemma_record_errors_well_formed(record, value, context);
        },
        _ => {},
    }
}

} // verus!
