use super::context::{outcome, Context};
use super::walk::{
    check_errors, field_errors, fields_errors, flattened, plain_errors, record_errors,
    rules_errors,
};
use crate::validation::error::errors::{find_key, lemma_find_key, slot};
use crate::validation::error::map_errors::{with_error, with_errors};
use crate::validation::{Error, ErrorView, ErrorsView};
use crate::validator::{validators_view, Check};
use crate::value::{Field, Record, RecordKind, Rule, Value};
use vstd::prelude::*;

verus! {

/// The reports of the first `m` checks stand at the head of the reports of the first `n`, for
/// `n` from `m` on: a later check takes no earlier report away and puts none before it.
pub proof fn lemma_plain_errors_grow<
    P: Fn(usize, &Value) -> Result<(), String>,
    M: Fn(usize, &Error) -> String,
>(checks: Seq<Check>, value: Value, context: Context<P, M>, m: nat, n: nat)
    requires
        m <= n <= checks.len(),
    ensures
        plain_errors(checks, value, context, m).len() <= plain_errors(
            checks,
            value,
            context,
            n,
        ).len(),
        plain_errors(checks, value, context, n).subrange(
            0,
            plain_errors(checks, value, context, m).len() as int,
        ) == plain_errors(checks, value, context, m),
    decreases n,
{
    if m < n {
        lemma_plain_errors_grow(checks, value, context, m, (n - 1) as nat);
        assert(plain_errors(checks, value, context, n).subrange(
            0,
            plain_errors(checks, value, context, m).len() as int,
        ) =~= plain_errors(checks, value, context, m));
    } else {
        assert(plain_errors(checks, value, context, n).subrange(
            0,
            plain_errors(checks, value, context, m).len() as int,
        ) =~= plain_errors(checks, value, context, m));
    }
}

/// Validation does not stop at the first failure: whatever a check reports stands in the list
/// of the field, after the reports of the checks that were declared before it.
pub proof fn lemma_every_check_is_reported<
    P: Fn(usize, &Value) -> Result<(), String>,
    M: Fn(usize, &Error) -> String,
>(checks: Seq<Check>, value: Value, context: Context<P, M>, i: nat)
    requires
        i < checks.len(),
    ensures
        ({
            let all = plain_errors(checks, value, context, checks.len());
            let before = plain_errors(checks, value, context, i);
            let reported = check_errors(checks[i as int], value, context);
            &&& before.len() + reported.len() <= all.len()
            &&& all.subrange(before.len() as int, (before.len() + reported.len()) as int)
                == reported
        }),
{
    let all = plain_errors(checks, value, context, checks.len());
    let before = plain_errors(checks, value, context, i);
    let reported = check_errors(checks[i as int], value, context);
    lemma_plain_errors_grow(checks, value, context, i + 1, checks.len());
    let until = plain_errors(checks, value, context, i + 1);
    assert(until == before + reported);
    assert(all.subrange(0, until.len() as int) == until);
    assert forall|k: int| 0 <= k < reported.len() implies all[before.len() + k]
        == reported[k] by {
        assert(all.subrange(0, until.len() as int)[before.len() + k] == until[before.len() + k]);
    }
    assert(all.subrange(before.len() as int, (before.len() + reported.len()) as int) =~= reported);
}

/// Whether the errors by name hold `error` in the list of `key`.
pub open spec fn holds(
    entries: Seq<(Seq<char>, Seq<ErrorView>)>,
    key: Seq<char>,
    error: ErrorView,
) -> bool {
    find_key(entries, key, 0) matches Some(k) && entries[k].1.contains(error)
}

/// An error that is held stays held when a list of errors is reported for any field.
pub proof fn lemma_with_errors_keeps(
    entries: Seq<(Seq<char>, Seq<ErrorView>)>,
    key: Seq<char>,
    error: ErrorView,
    other: Seq<char>,
    errors: Seq<ErrorView>,
)
    requires
        holds(entries, key, error),
    ensures
        holds(with_errors(entries, other, errors), key, error),
{
    let after = with_errors(entries, other, errors);
    lemma_find_key(entries, key, 0);
    lemma_find_key(entries, other, 0);
    let k = find_key(entries, key, 0)->Some_0;
    let at = choose|at: int| 0 <= at < entries[k].1.len() && entries[k].1[at] == error;
    if errors.len() > 0 {
        match find_key(entries, other, 0) {
            Some(j) => {
                if j == k {
                    assert(after[k].1[at] == error);
                } else {
                    assert(after[k] == entries[k]);
                }
            },
            None => {
                assert(after[k] == entries[k]);
            },
        }
        assert forall|i: int| 0 <= i < k implies after[i].0 != key by {
            assert(after[i].0 == entries[i].0);
        }
    }
    lemma_find_key(after, key, 0);
    assert(after[k].0 == key);
    assert(after[k].1.contains(error));
}

/// An error that is held stays held when one error is reported for any field.
pub proof fn lemma_with_error_keeps(
    entries: Seq<(Seq<char>, Seq<ErrorView>)>,
    key: Seq<char>,
    error: ErrorView,
    other: Seq<char>,
    added: ErrorView,
)
    requires
        holds(entries, key, error),
    ensures
        holds(with_error(entries, other, added), key, error),
{
    let after = with_error(entries, other, added);
    lemma_find_key(entries, key, 0);
    lemma_find_key(entries, other, 0);
    let k = find_key(entries, key, 0)->Some_0;
    let at = choose|at: int| 0 <= at < entries[k].1.len() && entries[k].1[at] == error;
    match find_key(entries, other, 0) {
        Some(j) => {
            if j == k {
                assert(after[k].1[at] == error);
            } else {
                assert(after[k] == entries[k]);
            }
        },
        None => {
            assert(after[k] == entries[k]);
        },
    }
    assert forall|i: int| 0 <= i < k implies after[i].0 != key by {
        assert(after[i].0 == entries[i].0);
    }
    lemma_find_key(after, key, 0);
    assert(after[k].0 == key);
    assert(after[k].1.contains(error));
}

/// Every error of a list that is reported for a field is held under the name of the field.
pub proof fn lemma_with_errors_holds(
    entries: Seq<(Seq<char>, Seq<ErrorView>)>,
    key: Seq<char>,
    errors: Seq<ErrorView>,
    error: ErrorView,
)
    requires
        errors.contains(error),
    ensures
        holds(with_errors(entries, key, errors), key, error),
{
    let after = with_errors(entries, key, errors);
    lemma_find_key(entries, key, 0);
    let at = choose|at: int| 0 <= at < errors.len() && errors[at] == error;
    match find_key(entries, key, 0) {
        Some(k) => {
            assert(after[k].1[entries[k].1.len() + at] == error);
            assert forall|i: int| 0 <= i < k implies after[i].0 != key by {
                assert(after[i].0 == entries[i].0);
            }
            lemma_find_key(after, key, 0);
            assert(after[k].0 == key);
            assert(after[k].1.contains(error));
        },
        None => {
            let k = entries.len() as int;
            assert(after[k].1[at] == error);
            assert forall|i: int| 0 <= i < k implies after[i].0 != key by {
                assert(after[i].0 == entries[i].0);
            }
            lemma_find_key(after, key, 0);
            assert(after[k].0 == key);
            assert(after[k].1.contains(error));
        },
    }
}

/// The error that is reported for a field is held under the name of the field.
pub proof fn lemma_with_error_holds(
    entries: Seq<(Seq<char>, Seq<ErrorView>)>,
    key: Seq<char>,
    error: ErrorView,
)
    ensures
        holds(with_error(entries, key, error), key, error),
{
    let after = with_error(entries, key, error);
    lemma_find_key(entries, key, 0);
    match find_key(entries, key, 0) {
        Some(k) => {
            assert(after[k].1[entries[k].1.len() as int] == error);
            assert forall|i: int| 0 <= i < k implies after[i].0 != key by {
                assert(after[i].0 == entries[i].0);
            }
            lemma_find_key(after, key, 0);
            assert(after[k].0 == key);
            assert(after[k].1.contains(error));
        },
        None => {
            let k = entries.len() as int;
            assert(after[k].1[0] == error);
            assert forall|i: int| 0 <= i < k implies after[i].0 != key by {
                assert(after[i].0 == entries[i].0);
            }
            lemma_find_key(after, key, 0);
            assert(after[k].0 == key);
            assert(after[k].1.contains(error));
        },
    }
}

/// What the field at position `i` contributes: the errors that its result adds to its list.
pub open spec fn field_reports<
    P: Fn(usize, &Value) -> Result<(), String>,
    M: Fn(usize, &Error) -> String,
>(fields: Vec<Field>, context: Context<P, M>, i: int) -> Seq<ErrorView> {
    slot(field_errors(fields@[i].value, validators_view(fields@[i].validators), context))
}

/// Every error of every field is held, under the name of its field, in the errors of the
/// fields: no field is passed over and no later field takes an error away.
pub proof fn lemma_every_field_is_reported<
    P: Fn(usize, &Value) -> Result<(), String>,
    M: Fn(usize, &Error) -> String,
>(fields: Vec<Field>, context: Context<P, M>, n: nat, i: int, error: ErrorView)
    requires
        0 <= i < n <= fields@.len(),
        field_reports(fields, context, i).contains(error),
    ensures
        holds(fields_errors(fields, context, n), fields@[i].name@, error),
    decreases n,
{
    let before = fields_errors(fields, context, (n - 1) as nat);
    if i == n - 1 {
        lemma_with_errors_holds(
            before,
            fields@[i].name@,
            field_reports(fields, context, i),
            error,
        );
    } else {
        lemma_every_field_is_reported(fields, context, (n - 1) as nat, i, error);
        lemma_with_errors_keeps(
            before,
            fields@[i].name@,
            error,
            fields@[n - 1].name@,
            field_reports(fields, context, n - 1),
        );
    }
}

/// Asking the rules takes no error away.
pub proof fn lemma_rules_keep<
    P: Fn(usize, &Value) -> Result<(), String>,
    M: Fn(usize, &Error) -> String,
>(
    entries: Seq<(Seq<char>, Seq<ErrorView>)>,
    rules: Seq<Rule>,
    whole: Value,
    context: Context<P, M>,
    n: nat,
    key: Seq<char>,
    error: ErrorView,
)
    requires
        holds(entries, key, error),
    ensures
        holds(rules_errors(entries, rules, whole, context, n), key, error),
    decreases n,
{
    if n == 0 || n > rules.len() {
    } else {
        lemma_rules_keep(entries, rules, whole, context, (n - 1) as nat, key, error);
        match outcome(context.predicates, rules[n - 1].predicate, whole) {
            Ok(_) => {},
            Err(text) => {
                lemma_with_error_keeps(
                    rules_errors(entries, rules, whole, context, (n - 1) as nat),
                    key,
                    error,
                    rules[n - 1].key@,
                    ErrorView::Custom(text),
                );
            },
        }
    }
}

/// Every rule that refuses is reported: its text is held, as it is, under its key.
pub proof fn lemma_every_rule_is_reported<
    P: Fn(usize, &Value) -> Result<(), String>,
    M: Fn(usize, &Error) -> String,
>(
    entries: Seq<(Seq<char>, Seq<ErrorView>)>,
    rules: Seq<Rule>,
    whole: Value,
    context: Context<P, M>,
    n: nat,
    i: int,
)
    requires
        0 <= i < n <= rules.len(),
        outcome(context.predicates, rules[i].predicate, whole) is Err,
    ensures
        holds(
            rules_errors(entries, rules, whole, context, n),
            rules[i].key@,
            ErrorView::Custom(outcome(context.predicates, rules[i].predicate, whole)->Err_0),
        ),
    decreases n,
{
    let before = rules_errors(entries, rules, whole, context, (n - 1) as nat);
    let error = ErrorView::Custom(outcome(context.predicates, rules[i].predicate, whole)->Err_0);
    if i == n - 1 {
        lemma_with_error_holds(before, rules[i].key@, error);
    } else {
        lemma_every_rule_is_reported(entries, rules, whole, context, (n - 1) as nat, i);
        match outcome(context.predicates, rules[n - 1].predicate, whole) {
            Ok(_) => {},
            Err(text) => {
                lemma_with_error_keeps(
                    before,
                    rules[i].key@,
                    error,
                    rules[n - 1].key@,
                    ErrorView::Custom(text),
                );
            },
        }
    }
}

/// An error that is held under some name is in the lists of all names put one after another.
pub proof fn lemma_flattened_holds(
    entries: Seq<(Seq<char>, Seq<ErrorView>)>,
    n: nat,
    k: int,
    error: ErrorView,
)
    requires
        0 <= k < n <= entries.len(),
        entries[k].1.contains(error),
    ensures
        flattened(entries, n).contains(error),
    decreases n,
{
    let before = flattened(entries, (n - 1) as nat);
    if k == n - 1 {
        let at = choose|at: int| 0 <= at < entries[k].1.len() && entries[k].1[at] == error;
        assert(flattened(entries, n)[before.len() + at] == error);
    } else {
        lemma_flattened_holds(entries, (n - 1) as nat, k, error);
        let at = choose|at: int| 0 <= at < before.len() && before[at] == error;
        assert(flattened(entries, n)[at] == error);
    }
}

/// Validation is exhaustive: every error of every field of a struct is in the result of the
/// struct, whatever else fails. A struct with named fields holds it under the name of the
/// field, a wrapper around one field in its one list.
pub proof fn lemma_validation_is_exhaustive<
    P: Fn(usize, &Value) -> Result<(), String>,
    M: Fn(usize, &Error) -> String,
>(record: Record, whole: Value, context: Context<P, M>, i: int, error: ErrorView)
    requires
        0 <= i < record.fields@.len(),
        field_reports(record.fields, context, i).contains(error),
    ensures
        match record.kind {
            RecordKind::Named => record_errors(record, whole, context) matches Some(
                ErrorsView::Object(object),
            ) && holds(object.properties, record.fields@[i].name@, error),
            RecordKind::NewType => record_errors(record, whole, context) matches Some(
                ErrorsView::NewType(list),
            ) && list.contains(error),
        },
{
    let of_fields = fields_errors(record.fields, context, record.fields@.len());
    lemma_every_field_is_reported(record.fields, context, record.fields@.len(), i, error);
    lemma_rules_keep(
        of_fields,
        record.rules@,
        whole,
        context,
        record.rules@.len(),
        record.fields@[i].name@,
        error,
    );
    let entries = rules_errors(of_fields, record.rules@, whole, context, record.rules@.len());
    lemma_find_key(entries, record.fields@[i].name@, 0);
    let k = find_key(entries, record.fields@[i].name@, 0)->Some_0;
    lemma_flattened_holds(entries, entries.len(), k, error);
}

} // verus!
