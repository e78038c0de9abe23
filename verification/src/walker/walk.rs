use super::constraint::{failure_error, failure_of, message_text};
use super::context::{outcome, Context};
use super::laws::{
    lemma_element_errors_well_formed, lemma_field_errors_well_formed,
    lemma_record_errors_well_formed,
};
use crate::validation::error::error::{entries_view, items_view, vec_errors_view};
use crate::validation::error::errors::{is_empty, merged, slot};
use crate::validation::error::map_errors::{with_error, with_errors};
use crate::validation::error::well_formed::{items_well_formed, well_formed};
use crate::validation::{
    ArrayErrors, ArrayErrorsView, Error, ErrorView, Errors, ErrorsView, MapErrors, ObjectErrors,
    ObjectErrorsView, VecErrors,
};
use crate::validator::{validators_view, Check, Constraint, FieldValidators, ValidatorsView};
use crate::value::{Field, Record, RecordKind, Rule, Value};
use vstd::prelude::*;

verus! {

/// The errors that one check reports on a value, in the order in which they are reported.
///
/// A custom predicate reports its text as it is. A nested struct reports the result of its own
/// validation, as [`slot`] puts it into a list. Every other constraint reports one message with
/// the failure payload, or nothing.
pub open spec fn check_errors<
    P: Fn(usize, &Value) -> Result<(), String>,
    M: Fn(usize, &Error) -> String,
>(
    check: Check,
    value: Value,
    context: Context<P, M>,
) -> Seq<ErrorView>
    decreases value, 1nat, 0nat,
{
    match check.constraint {
        Constraint::Custom(id) => match outcome(context.predicates, id, value) {
            Ok(_) => Seq::empty(),
            Err(text) => seq![ErrorView::Custom(text)],
        },
        Constraint::Nested => match value {
            Value::Nested(record) => match record_errors(record, value, context) {
                Some(errors) => slot(errors),
                None => Seq::empty(),
            },
            _ => Seq::empty(),
        },
        _ => match failure_of(check.constraint, value, context.predicates) {
            Some(failure) => seq![
                ErrorView::Message {
                    failure,
                    text: message_text(check.message, failure, context.messages),
                },
            ],
            None => Seq::empty(),
        },
    }
}

/// The errors that the first `n` checks report on a value, in declared order.
pub open spec fn plain_errors<
    P: Fn(usize, &Value) -> Result<(), String>,
    M: Fn(usize, &Error) -> String,
>(
    checks: Seq<Check>,
    value: Value,
    context: Context<P, M>,
    n: nat,
) -> Seq<ErrorView>
    decreases value, 2nat, n,
{
    if n == 0 || n > checks.len() {
        Seq::empty()
    } else {
        plain_errors(checks, value, context, (n - 1) as nat) + check_errors(
            checks[n - 1],
            value,
            context,
        )
    }
}

/// The result of validating one value against the checks declared for it.
///
/// The checks on the value itself give a list. Where the value is an optional that is set, the
/// result of its content against the checks of that level is merged into the list; an optional
/// that is unset adds nothing. Where the value is a sequence, each element is validated against
/// the checks of that level, and the elements that have errors are merged in as an array result
/// keyed by their index.
pub open spec fn field_errors<
    P: Fn(usize, &Value) -> Result<(), String>,
    M: Fn(usize, &Error) -> String,
>(
    value: Value,
    validators: ValidatorsView,
    context: Context<P, M>,
) -> ErrorsView
    decreases value, 3nat, 0nat,
{
    let own = ErrorsView::NewType(
        plain_errors(validators.checks, value, context, validators.checks.len()),
    );
    match value {
        Value::Optional(Some(content)) => match validators.optional {
            Some(level) => merged(own, field_errors(*content, *level, context)),
            None => own,
        },
        Value::Sequence(elements) => match validators.array {
            Some(level) => {
                let items = element_errors(elements, *level, context, elements@.len());
                if items.len() == 0 {
                    own
                } else {
                    merged(
                        own,
                        ErrorsView::Array(ArrayErrorsView { errors: Seq::empty(), items }),
                    )
                }
            },
            None => own,
        },
        _ => own,
    }
}

/// The results of the first `n` elements of a sequence, for those that have errors, each with
/// the index of its element.
pub open spec fn element_errors<
    P: Fn(usize, &Value) -> Result<(), String>,
    M: Fn(usize, &Error) -> String,
>(
    elements: Vec<Value>,
    level: ValidatorsView,
    context: Context<P, M>,
    n: nat,
) -> Seq<(nat, ErrorsView)>
    decreases elements, 0nat, n,
{
    if n == 0 || n > elements@.len() {
        Seq::empty()
    } else {
        let before = element_errors(elements, level, context, (n - 1) as nat);
        let found = field_errors(elements@[n - 1], level, context);
        if is_empty(found) {
            before
        } else {
            before.push(((n - 1) as nat, found))
        }
    }
}

/// The errors of the first `n` fields of a struct, by field name.
pub open spec fn fields_errors<
    P: Fn(usize, &Value) -> Result<(), String>,
    M: Fn(usize, &Error) -> String,
>(
    fields: Vec<Field>,
    context: Context<P, M>,
    n: nat,
) -> Seq<(Seq<char>, Seq<ErrorView>)>
    decreases fields, 0nat, n,
{
    if n == 0 || n > fields@.len() {
        Seq::empty()
    } else {
        with_errors(
            fields_errors(fields, context, (n - 1) as nat),
            fields@[n - 1].name@,
            slot(
                field_errors(
                    fields@[n - 1].value,
                    validators_view(fields@[n - 1].validators),
                    context,
                ),
            ),
        )
    }
}

/// The errors by name after the first `n` rules were asked about the whole struct: each rule
/// that refuses reports its text, as it is, under its key.
pub open spec fn rules_errors<
    P: Fn(usize, &Value) -> Result<(), String>,
    M: Fn(usize, &Error) -> String,
>(
    entries: Seq<(Seq<char>, Seq<ErrorView>)>,
    rules: Seq<Rule>,
    whole: Value,
    context: Context<P, M>,
    n: nat,
) -> Seq<(Seq<char>, Seq<ErrorView>)>
    decreases n,
{
    if n == 0 || n > rules.len() {
        entries
    } else {
        let before = rules_errors(entries, rules, whole, context, (n - 1) as nat);
        match outcome(context.predicates, rules[n - 1].predicate, whole) {
            Ok(_) => before,
            Err(text) => with_error(before, rules[n - 1].key@, ErrorView::Custom(text)),
        }
    }
}

/// The lists of the first `n` entries, one after another.
pub open spec fn flattened(entries: Seq<(Seq<char>, Seq<ErrorView>)>, n: nat) -> Seq<ErrorView>
    decreases n,
{
    if n == 0 || n > entries.len() {
        Seq::empty()
    } else {
        flattened(entries, (n - 1) as nat) + entries[n - 1].1
    }
}

/// The result of validating a struct: `None` where nothing is violated.
///
/// The fields are validated in declared order, then the rules are asked about `whole`, the
/// struct as a value. A struct with named fields reports the errors by name; a wrapper around
/// one unnamed field reports them as one list.
pub open spec fn record_errors<
    P: Fn(usize, &Value) -> Result<(), String>,
    M: Fn(usize, &Error) -> String,
>(
    record: Record,
    whole: Value,
    context: Context<P, M>,
) -> Option<ErrorsView>
    decreases record, 0nat, 0nat,
{
    let entries = rules_errors(
        fields_errors(record.fields, context, record.fields@.len()),
        record.rules@,
        whole,
        context,
        record.rules@.len(),
    );
    if entries.len() == 0 {
        None
    } else {
        match record.kind {
            RecordKind::Named => Some(
                ErrorsView::Object(ObjectErrorsView { errors: Seq::empty(), properties: entries }),
            ),
            RecordKind::NewType => Some(ErrorsView::NewType(flattened(entries, entries.len()))),
        }
    }
}

/// The result of validating a value: a struct is validated as [`record_errors`] says; any other
/// value has no checks of its own and is accepted.
pub open spec fn validation_errors<
    P: Fn(usize, &Value) -> Result<(), String>,
    M: Fn(usize, &Error) -> String,
>(
    value: Value,
    context: Context<P, M>,
) -> Option<ErrorsView> {
    match value {
        Value::Nested(record) => record_errors(record, value, context),
        _ => None,
    }
}

/// Adds the errors that one check reports on a value to `out`.
pub fn check_into<P: Fn(usize, &Value) -> Result<(), String>, M: Fn(usize, &Error) -> String>(
    check: &Check,
    value: &Value,
    context: &Context<P, M>,
    out: &mut VecErrors,
)
    requires
        context.answers(),
    ensures
        vec_errors_view(*final(out)) == vec_errors_view(*old(out)) + check_errors(
            *check,
            *value,
            *context,
        ),
    decreases value, 1nat, 0nat,
{
    let ghost before = *out;
    match &check.constraint {
        Constraint::Custom(id) => {
            match (context.predicates)(*id, value) {
                Ok(_) => {
                    proof {
                        assert(vec_errors_view(*out) =~= vec_errors_view(before) + check_errors(
                            *check,
                            *value,
                            *context,
                        ));
                    }
                },
                Err(text) => {
                    out.push(Error::Custom(text));
                    proof {
                        assert(vec_errors_view(*out) =~= vec_errors_view(before) + check_errors(
                            *check,
                            *value,
                            *context,
                        ));
                    }
                },
            }
        },
        Constraint::Nested => {
            match value {
                Value::Nested(record) => {
                    match validate_record(record, value, context) {
                        Some(errors) => {
                            let mut list: VecErrors = errors.into_slot();
                            let ghost added = list;
                            out.append(&mut list);
                            proof {
                                assert(vec_errors_view(*out) =~= vec_errors_view(before)
                                    + vec_errors_view(added));
                            }
                        },
                        None => {
                            proof {
                                assert(vec_errors_view(*out) =~= vec_errors_view(before)
                                    + check_errors(*check, *value, *context));
                            }
                        },
                    }
                },
                _ => {
                    proof {
                        assert(vec_errors_view(*out) =~= vec_errors_view(before) + check_errors(
                            *check,
                            *value,
                            *context,
                        ));
                    }
                },
            }
        },
        _ => {
            match failure_error(check, value, context) {
                Some(error) => {
                    out.push(error);
                    proof {
                        assert(vec_errors_view(*out) =~= vec_errors_view(before) + check_errors(
                            *check,
                            *value,
                            *context,
                        ));
                    }
                },
                None => {
                    proof {
                        assert(vec_errors_view(*out) =~= vec_errors_view(before) + check_errors(
                            *check,
                            *value,
                            *context,
                        ));
                    }
                },
            }
        },
    }
}

/// The errors that the checks report on a value, in declared order.
pub fn plain_checks<P: Fn(usize, &Value) -> Result<(), String>, M: Fn(usize, &Error) -> String>(
    checks: &Vec<Check>,
    value: &Value,
    context: &Context<P, M>,
) -> (list: VecErrors)
    requires
        context.answers(),
    ensures
        vec_errors_view(list) == plain_errors(checks@, *value, *context, checks@.len()),
    decreases value, 2nat, 0nat,
{
    let mut list: VecErrors = Vec::new();
    let mut i: usize = 0;
    proof {
        assert(vec_errors_view(list) =~= plain_errors(checks@, *value, *context, 0));
    }
    while i < checks.len()
        invariant
            i <= checks@.len(),
            context.answers(),
            vec_errors_view(list) == plain_errors(checks@, *value, *context, i as nat),
        decreases checks@.len() - i,
    {
        check_into(&checks[i], value, context, &mut list);
        i = i + 1;
    }
    list
}

/// Validates one value against the checks declared for it.
pub fn walk<P: Fn(usize, &Value) -> Result<(), String>, M: Fn(usize, &Error) -> String>(
    value: &Value,
    validators: &FieldValidators,
    context: &Context<P, M>,
) -> (errors: Errors)
    requires
        context.answers(),
    ensures
        errors@ == field_errors(*value, validators@, *context),
        !(errors@ is Object),
        well_formed(errors@),
    decreases value, 3nat, 0nat,
{
    proof {
        lemma_field_errors_well_formed(*value, validators@, *context);
    }
    let own: VecErrors = plain_checks(&validators.validators, value, context);
    let mut errors: Errors = Errors::NewType(own);
    match value {
        Value::Optional(Some(content)) => {
            match &validators.optional_validators {
                Some(level) => {
                    let found: Errors = walk(content, level, context);
                    errors.merge(found);
                },
                None => {},
            }
        },
        Value::Sequence(elements) => {
            match &validators.array_validators {
                Some(level) => {
                    let items: Vec<(usize, Errors)> = walk_elements(elements, level, context);
                    if items.len() > 0 {
                        let whole: VecErrors = Vec::new();
                        proof {
                            assert(vec_errors_view(whole) =~= Seq::<ErrorView>::empty());
                        }
                        let found = Errors::Array(ArrayErrors { errors: whole, items });
                        errors.merge(found);
                    }
                },
                None => {},
            }
        },
        _ => {},
    }
    errors
}

/// Validates the elements of a sequence against the checks of their level.
pub fn walk_elements<P: Fn(usize, &Value) -> Result<(), String>, M: Fn(usize, &Error) -> String>(
    elements: &Vec<Value>,
    level: &FieldValidators,
    context: &Context<P, M>,
) -> (items: Vec<(usize, Errors)>)
    requires
        context.answers(),
    ensures
        items_view(items) == element_errors(*elements, level@, *context, elements@.len()),
        items_well_formed(items_view(items)),
    decreases elements, 0nat, 0nat,
{
    let mut items: Vec<(usize, Errors)> = Vec::new();
    let mut i: usize = 0;
    proof {
        assert(items_view(items) =~= element_errors(*elements, level@, *context, 0));
        lemma_element_errors_well_formed(*elements, level@, *context, elements@.len() as nat);
    }
    while i < elements.len()
        invariant
            i <= elements@.len(),
            context.answers(),
            items_view(items) == element_errors(*elements, level@, *context, i as nat),
        decreases elements@.len() - i,
    {
        proof {
            assert(decreases_to!(*elements => elements@[i as int]));
        }
        let found: Errors = walk(&elements[i], level, context);
        if !found.is_empty() {
            let ghost before = items;
            items.push((i, found));
            proof {
                assert(items_view(items) =~= items_view(before).push((i as nat, found@)));
            }
        }
        i = i + 1;
    }
    items
}

/// Validates a struct against the checks of its fields and its rules. `whole` is the struct as a
/// value, which the rules are asked about.
pub fn validate_record<P: Fn(usize, &Value) -> Result<(), String>, M: Fn(usize, &Error) -> String>(
    record: &Record,
    whole: &Value,
    context: &Context<P, M>,
) -> (errors: Option<Errors>)
    requires
        context.answers(),
    ensures
        match record_errors(*record, *whole, *context) {
            Some(expected) => errors matches Some(found) && found@ == expected,
            None => errors is None,
        },
        errors matches Some(found) ==> well_formed(found@) && !is_empty(found@),
    decreases record, 0nat, 0nat,
{
    proof {
        lemma_record_errors_well_formed(*record, *whole, *context);
    }
    let mut map: MapErrors = MapErrors::new();
    let mut i: usize = 0;
    proof {
        assert(map@ =~= fields_errors(record.fields, *context, 0));
    }
    while i < record.fields.len()
        invariant
            i <= record.fields@.len(),
            context.answers(),
            map@ == fields_errors(record.fields, *context, i as nat),
        decreases record.fields@.len() - i,
    {
        proof {
            assert(decreases_to!(record.fields => record.fields@[i as int]));
        }
        let found: Errors = walk(&record.fields[i].value, &record.fields[i].validators, context);
        map.extend(record.fields[i].name, found.into_slot());
        i = i + 1;
    }
    let ghost of_fields = map@;
    let mut k: usize = 0;
    while k < record.rules.len()
        invariant
            k <= record.rules@.len(),
            context.answers(),
            map@ == rules_errors(of_fields, record.rules@, *whole, *context, k as nat),
        decreases record.rules@.len() - k,
    {
        match (context.predicates)(record.rules[k].predicate, whole) {
            Ok(_) => {},
            Err(text) => {
                map.push(record.rules[k].key, Error::Custom(text));
            },
        }
        k = k + 1;
    }
    if map.is_empty() {
        None
    } else {
        match record.kind {
            RecordKind::Named => {
                let object = ObjectErrors { errors: Vec::new(), properties: map };
                proof {
                    assert(vec_errors_view(object.errors) =~= Seq::<ErrorView>::empty());
                }
                Some(Errors::Object(object))
            },
            RecordKind::NewType => Some(Errors::NewType(flatten(map))),
        }
    }
}

/// The lists of the entries, one after another.
pub fn flatten(map: MapErrors) -> (list: VecErrors)
    ensures
        vec_errors_view(list) == flattened(map@, map@.len()),
{
    let mut list: VecErrors = Vec::new();
    let ghost entries = map.entries@;
    let ghost views = map@;
    proof {
        assert(vec_errors_view(list) =~= flattened(views, 0));
    }
    for entry in it: map.entries
        invariant
            it.seq() == entries,
            views == entries_view(map.entries),
            entries == map.entries@,
            vec_errors_view(list) == flattened(views, it.index() as nat),
    {
        let ghost i = it.index();
        let ghost before = list;
        let mut errors: VecErrors = entry.1;
        let ghost added = errors;
        list.append(&mut errors);
        proof {
            assert(views[i].1 == vec_errors_view(added));
            assert(vec_errors_view(list) =~= vec_errors_view(before) + vec_errors_view(added));
        }
    }
    list
}

impl Value {
    /// Validates the value: every field of a struct against its checks, nested values in turn,
    /// then the rules of the struct. All violations are collected; the first does not end the
    /// walk.
    ///
    /// `context` holds the functions of the caller that the checks name by number.
    pub fn validate<
        P: Fn(usize, &Value) -> Result<(), String>,
        M: Fn(usize, &Error) -> String,
    >(&self, context: &Context<P, M>) -> (result:
        Result<(), Errors>)
        requires
            context.answers(),
        ensures
            match validation_errors(*self, *context) {
                Some(expected) => result matches Err(found) && found@ == expected,
                None => result is Ok,
            },
            result matches Err(found) ==> well_formed(found@) && !is_empty(found@),
    {
        match self {
            Value::Nested(record) => match validate_record(record, self, context) {
                Some(errors) => Err(errors),
                None => Ok(()),
            },
            _ => Ok(()),
        }
    }
}

} // verus!
