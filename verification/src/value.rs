use crate::error::Number;
use crate::text::str_equal;
use crate::validator::FieldValidators;
use vstd::prelude::*;

verus! {

/// A value under validation, in the shape it was declared with.
#[derive(Debug)]
pub enum Value {
    Number(Number),
    Bool(bool),
    Char(char),
    Text(String),
    /// An optional value, set or unset.
    Optional(Option<Box<Value>>),
    /// A sequence of values.
    Sequence(Vec<Value>),
    /// A struct with constraints of its own.
    Nested(Record),
}

/// How the fields of a struct are named.
#[derive(Clone, Copy, Debug, PartialEq, Eq, Structural)]
pub enum RecordKind {
    /// Fields with names: the errors are reported by field.
    Named,
    /// A wrapper around one unnamed field: the errors are reported as one list.
    NewType,
}

/// A struct under validation: its fields, each with its checks, and the rules that speak of
/// several fields at once.
#[derive(Debug)]
pub struct Record {
    pub kind: RecordKind,
    pub fields: Vec<Field>,
    pub rules: Vec<Rule>,
}

/// One field of a struct: the public name, the current value, and the declared checks.
#[derive(Debug)]
pub struct Field {
    pub name: &'static str,
    pub value: Value,
    pub validators: FieldValidators,
}

/// A rule over the whole struct: a predicate of the caller, by its number, and the name that its
/// failure is reported under.
#[derive(Debug, Clone)]
pub struct Rule {
    pub key: &'static str,
    pub predicate: usize,
}

/// Whether two values are equal: the same kind, and equal contents. Numbers are compared by
/// value, whatever integer types hold them, and structs field by field, by name and value.
pub open spec fn values_equal(a: Value, b: Value) -> bool
    decreases a, 0nat,
{
    match (a, b) {
        (Value::Number(x), Value::Number(y)) => x.value() == y.value(),
        (Value::Bool(x), Value::Bool(y)) => x == y,
        (Value::Char(x), Value::Char(y)) => x == y,
        (Value::Text(x), Value::Text(y)) => x@ == y@,
        (Value::Optional(None), Value::Optional(None)) => true,
        (Value::Optional(Some(x)), Value::Optional(Some(y))) => values_equal(*x, *y),
        (Value::Sequence(xs), Value::Sequence(ys)) => xs@.len() == ys@.len() && sequences_equal(
            xs,
            ys,
            xs@.len(),
        ),
        (Value::Nested(x), Value::Nested(y)) => x.fields@.len() == y.fields@.len()
            && fields_equal(x.fields, y.fields, x.fields@.len()),
        _ => false,
    }
}

/// Whether the first `n` values of two sequences are equal, each to the one at its place.
pub open spec fn sequences_equal(xs: Vec<Value>, ys: Vec<Value>, n: nat) -> bool
    decreases xs, n,
{
    if n == 0 || n > xs@.len() || n > ys@.len() {
        n == 0
    } else {
        sequences_equal(xs, ys, (n - 1) as nat) && values_equal(xs@[n - 1], ys@[n - 1])
    }
}

/// Whether the first `n` fields of two structs are equal, each to the one at its place, in name
/// and in value.
pub open spec fn fields_equal(xs: Vec<Field>, ys: Vec<Field>, n: nat) -> bool
    decreases xs, n,
{
    if n == 0 || n > xs@.len() || n > ys@.len() {
        n == 0
    } else {
        &&& fields_equal(xs, ys, (n - 1) as nat)
        &&& xs@[n - 1].name@ == ys@[n - 1].name@
        &&& values_equal(xs@[n - 1].value, ys@[n - 1].value)
    }
}

impl Value {
    /// Whether the two values are equal.
    pub fn same(&self, other: &Value) -> (equal: bool)
        ensures
            equal == values_equal(*self, *other),
        decreases self,
    {
        match (self, other) {
            (Value::Number(x), Value::Number(y)) => x.same_value(y),
            (Value::Bool(x), Value::Bool(y)) => *x == *y,
            (Value::Char(x), Value::Char(y)) => *x == *y,
            (Value::Text(x), Value::Text(y)) => str_equal(x.as_str(), y.as_str()),
            (Value::Optional(None), Value::Optional(None)) => true,
            (Value::Optional(Some(x)), Value::Optional(Some(y))) => x.same(y),
            (Value::Sequence(xs), Value::Sequence(ys)) => {
                if xs.len() != ys.len() {
                    return false;
                }
                let mut i: usize = 0;
                while i < xs.len()
                    invariant
                        i <= xs@.len(),
                        xs@.len() == ys@.len(),
                        *self is Sequence,
                        self->Sequence_0 == *xs,
                        *other is Sequence,
                        other->Sequence_0 == *ys,
                        sequences_equal(*xs, *ys, i as nat),
                    decreases xs@.len() - i,
                {
                    proof {
                        assert(decreases_to!(*xs => xs@[i as int]));
                    }
                    if !xs[i].same(&ys[i]) {
                        proof {
                            lemma_sequences_differ(*xs, *ys, (i + 1) as nat, xs@.len());
                        }
                        return false;
                    }
                    i = i + 1;
                }
                true
            },
            (Value::Nested(x), Value::Nested(y)) => {
                if x.fields.len() != y.fields.len() {
                    return false;
                }
                let mut i: usize = 0;
                while i < x.fields.len()
                    invariant
                        i <= x.fields@.len(),
                        x.fields@.len() == y.fields@.len(),
                        *self is Nested,
                        self->Nested_0 == *x,
                        *other is Nested,
                        other->Nested_0 == *y,
                        fields_equal(x.fields, y.fields, i as nat),
                    decreases x.fields@.len() - i,
                {
                    proof {
                        assert(decreases_to!(x.fields => x.fields@[i as int]));
                    }
                    if !str_equal(x.fields[i].name, y.fields[i].name) || !x.fields[i].value.same(
                        &y.fields[i].value,
                    ) {
                        proof {
                            lemma_fields_differ(
                                x.fields,
                                y.fields,
                                (i + 1) as nat,
                                x.fields@.len(),
                            );
                        }
                        return false;
                    }
                    i = i + 1;
                }
                true
            },
            _ => false,
        }
    }
}

/// Sequences that differ in their first `m` values differ in their first `n`, for `n` from `m` on.
proof fn lemma_sequences_differ(xs: Vec<Value>, ys: Vec<Value>, m: nat, n: nat)
    requires
        !sequences_equal(xs, ys, m),
        m <= n <= xs@.len(),
        n <= ys@.len(),
    ensures
        !sequences_equal(xs, ys, n),
    decreases n,
{
    if m < n {
        lemma_sequences_differ(xs, ys, m, (n - 1) as nat);
    }
}

/// Structs that differ in their first `m` fields differ in their first `n`, for `n` from `m` on.
proof fn lemma_fields_differ(xs: Vec<Field>, ys: Vec<Field>, m: nat, n: nat)
    requires
        !fields_equal(xs, ys, m),
        m <= n <= xs@.len(),
        n <= ys@.len(),
    ensures
        !fields_equal(xs, ys, n),
    decreases n,
{
    if m < n {
        lemma_fields_differ(xs, ys, m, (n - 1) as nat);
    }
}

} // verus!
