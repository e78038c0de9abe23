use crate::error::{EnumerateErrorParams, Literal, LiteralView, Number};
use crate::text::str_equal;
use vstd::prelude::*;
use vstd::std_specs::cmp::PartialEqSpec;

verus! {

/// Whether some candidate equals the value under the equality of their type.
pub open spec fn is_candidate<T: PartialEq>(value: T, enumerate: Seq<T>) -> bool {
    exists|i: int| 0 <= i < enumerate.len() && #[trigger] enumerate[i].eq_spec(&value)
}

/// Membership of a value in a list of candidates.
///
/// The contract speaks for types whose `==` is specified (`T::obeys_eq_spec()`).
pub fn validate_generic_enumerate<T: PartialEq>(value: &T, enumerate: &[T]) -> (found: bool)
    ensures
        T::obeys_eq_spec() ==> found == is_candidate(*value, enumerate@),
{
    let mut i: usize = 0;
    while i < enumerate.len()
        invariant
            i <= enumerate@.len(),
            T::obeys_eq_spec() ==> forall|k: int|
                0 <= k < i ==> !(#[trigger] enumerate@[k].eq_spec(value)),
        decreases enumerate@.len() - i,
    {
        if enumerate[i] == *value {
            return true;
        }
        i = i + 1;
    }
    false
}

/// Whether some candidate holds the same characters as the text.
pub open spec fn is_text_candidate(value: Seq<char>, enumerate: Seq<&'static str>) -> bool {
    exists|i: int| 0 <= i < enumerate.len() && (#[trigger] enumerate[i])@ == value
}

/// Membership of a text in a list of candidate texts.
pub fn validate_text_enumerate(value: &str, enumerate: &[&'static str]) -> (found: bool)
    ensures
        found == is_text_candidate(value@, enumerate@),
{
    let mut i: usize = 0;
    while i < enumerate.len()
        invariant
            i <= enumerate@.len(),
            forall|k: int| 0 <= k < i ==> (#[trigger] enumerate@[k])@ != value@,
        decreases enumerate@.len() - i,
    {
        if str_equal(enumerate[i], value) {
            return true;
        }
        i = i + 1;
    }
    false
}

/// The candidates as literals, each made by `to_literal`, in their order.
pub fn collect_literals<T, F: Fn(&T) -> Literal>(items: &[T], to_literal: F) -> (literals: Vec<
    Literal,
>)
    requires
        forall|i: int| 0 <= i < items@.len() ==> call_requires(to_literal, (&items@[i],)),
    ensures
        literals@.len() == items@.len(),
        forall|i: int|
            0 <= i < items@.len() ==> call_ensures(
                to_literal,
                (&items@[i],),
                #[trigger] literals@[i],
            ),
{
    let mut literals: Vec<Literal> = Vec::new();
    let mut i: usize = 0;
    while i < items.len()
        invariant
            i <= items@.len(),
            literals@.len() == i,
            forall|k: int| 0 <= k < items@.len() ==> call_requires(to_literal, (&items@[k],)),
            forall|k: int|
                0 <= k < i ==> call_ensures(to_literal, (&items@[k],), #[trigger] literals@[k]),
        decreases items@.len() - i,
    {
        literals.push(to_literal(&items[i]));
        i = i + 1;
    }
    literals
}

/// Enumerate validation of a value against the declared candidates.
///
/// See <https://json-schema.org/understanding-json-schema/reference/generic.html#enumerated-values>
pub trait ValidateEnumerate<T> {
    fn validate_enumerate(&self, enumerate: &[T]) -> Result<(), EnumerateErrorParams>;
}

impl ValidateEnumerate<i8> for i8 {
    fn validate_enumerate(&self, enumerate: &[i8]) -> (result: Result<(), EnumerateErrorParams>)
        ensures
            result is Ok <==> enumerate@.contains(*self),
            result matches Err(params) ==> params.enumerate@.map_values(|l: Literal| l@)
                == enumerate@.map_values(|n: i8| LiteralView::Number(Number::I8(n))),
    {
        let found: bool = validate_generic_enumerate(self, enumerate);
        proof {
            if found {
                let i = choose|i: int|
                    0 <= i < enumerate@.len() && #[trigger] enumerate@[i].eq_spec(self);
                assert(enumerate@[i] == *self);
            } else {
                assert forall|i: int| 0 <= i < enumerate@.len() implies enumerate@[i] != *self by {
                    assert(!enumerate@[i].eq_spec(self));
                }
            }
        }
        if found {
            Ok(())
        } else {
            let to_literal = |n: &i8| -> (l: Literal)
                ensures
                    l@ == LiteralView::Number(Number::I8(*n)),
                { Literal::Number(Number::I8(*n)) };
            let literals: Vec<Literal> = collect_literals(enumerate, to_literal);
            assert(literals@.map_values(|l: Literal| l@) =~= enumerate@.map_values(
                |n: i8| LiteralView::Number(Number::I8(n)),
            ));
            Err(EnumerateErrorParams::new(literals))
        }
    }
}

impl ValidateEnumerate<i16> for i16 {
    fn validate_enumerate(&self, enumerate: &[i16]) -> (result: Result<(), EnumerateErrorParams>)
        ensures
            result is Ok <==> enumerate@.contains(*self),
            result matches Err(params) ==> params.enumerate@.map_values(|l: Literal| l@)
                == enumerate@.map_values(|n: i16| LiteralView::Number(Number::I16(n))),
    {
        let found: bool = validate_generic_enumerate(self, enumerate);
        proof {
            if found {
                let i = choose|i: int|
                    0 <= i < enumerate@.len() && #[trigger] enumerate@[i].eq_spec(self);
                assert(enumerate@[i] == *self);
            } else {
                assert forall|i: int| 0 <= i < enumerate@.len() implies enumerate@[i] != *self by {
                    assert(!enumerate@[i].eq_spec(self));
                }
            }
        }
        if found {
            Ok(())
        } else {
            let to_literal = |n: &i16| -> (l: Literal)
                ensures
                    l@ == LiteralView::Number(Number::I16(*n)),
                { Literal::Number(Number::I16(*n)) };
            let literals: Vec<Literal> = collect_literals(enumerate, to_literal);
            assert(literals@.map_values(|l: Literal| l@) =~= enumerate@.map_values(
                |n: i16| LiteralView::Number(Number::I16(n)),
            ));
            Err(EnumerateErrorParams::new(literals))
        }
    }
}

impl ValidateEnumerate<i32> for i32 {
    fn validate_enumerate(&self, enumerate: &[i32]) -> (result: Result<(), EnumerateErrorParams>)
        ensures
            result is Ok <==> enumerate@.contains(*self),
            result matches Err(params) ==> params.enumerate@.map_values(|l: Literal| l@)
                == enumerate@.map_values(|n: i32| LiteralView::Number(Number::I32(n))),
    {
        let found: bool = validate_generic_enumerate(self, enumerate);
        proof {
            if found {
                let i = choose|i: int|
                    0 <= i < enumerate@.len() && #[trigger] enumerate@[i].eq_spec(self);
                assert(enumerate@[i] == *self);
            } else {
                assert forall|i: int| 0 <= i < enumerate@.len() implies enumerate@[i] != *self by {
                    assert(!enumerate@[i].eq_spec(self));
                }
            }
        }
        if found {
            Ok(())
        } else {
            let to_literal = |n: &i32| -> (l: Literal)
                ensures
                    l@ == LiteralView::Number(Number::I32(*n)),
                { Literal::Number(Number::I32(*n)) };
            let literals: Vec<Literal> = collect_literals(enumerate, to_literal);
            assert(literals@.map_values(|l: Literal| l@) =~= enumerate@.map_values(
                |n: i32| LiteralView::Number(Number::I32(n)),
            ));
            Err(EnumerateErrorParams::new(literals))
        }
    }
}

impl ValidateEnumerate<i64> for i64 {
    fn validate_enumerate(&self, enumerate: &[i64]) -> (result: Result<(), EnumerateErrorParams>)
        ensures
            result is Ok <==> enumerate@.contains(*self),
            result matches Err(params) ==> params.enumerate@.map_values(|l: Literal| l@)
                == enumerate@.map_values(|n: i64| LiteralView::Number(Number::I64(n))),
    {
        let found: bool = validate_generic_enumerate(self, enumerate);
        proof {
            if found {
                let i = choose|i: int|
                    0 <= i < enumerate@.len() && #[trigger] enumerate@[i].eq_spec(self);
                assert(enumerate@[i] == *self);
            } else {
                assert forall|i: int| 0 <= i < enumerate@.len() implies enumerate@[i] != *self by {
                    assert(!enumerate@[i].eq_spec(self));
                }
            }
        }
        if found {
            Ok(())
        } else {
            let to_literal = |n: &i64| -> (l: Literal)
                ensures
                    l@ == LiteralView::Number(Number::I64(*n)),
                { Literal::Number(Number::I64(*n)) };
            let literals: Vec<Literal> = collect_literals(enumerate, to_literal);
            assert(literals@.map_values(|l: Literal| l@) =~= enumerate@.map_values(
                |n: i64| LiteralView::Number(Number::I64(n)),
            ));
            Err(EnumerateErrorParams::new(literals))
        }
    }
}

impl ValidateEnumerate<i128> for i128 {
    fn validate_enumerate(&self, enumerate: &[i128]) -> (result: Result<(), EnumerateErrorParams>)
        ensures
            result is Ok <==> enumerate@.contains(*self),
            result matches Err(params) ==> params.enumerate@.map_values(|l: Literal| l@)
                == enumerate@.map_values(|n: i128| LiteralView::Number(Number::I128(n))),
    {
        let found: bool = validate_generic_enumerate(self, enumerate);
        proof {
            if found {
                let i = choose|i: int|
                    0 <= i < enumerate@.len() && #[trigger] enumerate@[i].eq_spec(self);
                assert(enumerate@[i] == *self);
            } else {
                assert forall|i: int| 0 <= i < enumerate@.len() implies enumerate@[i] != *self by {
                    assert(!enumerate@[i].eq_spec(self));
                }
            }
        }
        if found {
            Ok(())
        } else {
            let to_literal = |n: &i128| -> (l: Literal)
                ensures
                    l@ == LiteralView::Number(Number::I128(*n)),
                { Literal::Number(Number::I128(*n)) };
            let literals: Vec<Literal> = collect_literals(enumerate, to_literal);
            assert(literals@.map_values(|l: Literal| l@) =~= enumerate@.map_values(
                |n: i128| LiteralView::Number(Number::I128(n)),
            ));
            Err(EnumerateErrorParams::new(literals))
        }
    }
}

impl ValidateEnumerate<isize> for isize {
    fn validate_enumerate(&self, enumerate: &[isize]) -> (result: Result<(), EnumerateErrorParams>)
        ensures
            result is Ok <==> enumerate@.contains(*self),
            result matches Err(params) ==> params.enumerate@.map_values(|l: Literal| l@)
                == enumerate@.map_values(|n: isize| LiteralView::Number(Number::Isize(n))),
    {
        let found: bool = validate_generic_enumerate(self, enumerate);
        proof {
            if found {
                let i = choose|i: int|
                    0 <= i < enumerate@.len() && #[trigger] enumerate@[i].eq_spec(self);
                assert(enumerate@[i] == *self);
            } else {
                assert forall|i: int| 0 <= i < enumerate@.len() implies enumerate@[i] != *self by {
                    assert(!enumerate@[i].eq_spec(self));
                }
            }
        }
        if found {
            Ok(())
        } else {
            let to_literal = |n: &isize| -> (l: Literal)
                ensures
                    l@ == LiteralView::Number(Number::Isize(*n)),
                { Literal::Number(Number::Isize(*n)) };
            let literals: Vec<Literal> = collect_literals(enumerate, to_literal);
            assert(literals@.map_values(|l: Literal| l@) =~= enumerate@.map_values(
                |n: isize| LiteralView::Number(Number::Isize(n)),
            ));
            Err(EnumerateErrorParams::new(literals))
        }
    }
}

impl ValidateEnumerate<u8> for u8 {
    fn validate_enumerate(&self, enumerate: &[u8]) -> (result: Result<(), EnumerateErrorParams>)
        ensures
            result is Ok <==> enumerate@.contains(*self),
            result matches Err(params) ==> params.enumerate@.map_values(|l: Literal| l@)
                == enumerate@.map_values(|n: u8| LiteralView::Number(Number::U8(n))),
    {
        let found: bool = validate_generic_enumerate(self, enumerate);
        proof {
            if found {
                let i = choose|i: int|
                    0 <= i < enumerate@.len() && #[trigger] enumerate@[i].eq_spec(self);
                assert(enumerate@[i] == *self);
            } else {
                assert forall|i: int| 0 <= i < enumerate@.len() implies enumerate@[i] != *self by {
                    assert(!enumerate@[i].eq_spec(self));
                }
            }
        }
        if found {
            Ok(())
        } else {
            let to_literal = |n: &u8| -> (l: Literal)
                ensures
                    l@ == LiteralView::Number(Number::U8(*n)),
                { Literal::Number(Number::U8(*n)) };
            let literals: Vec<Literal> = collect_literals(enumerate, to_literal);
            assert(literals@.map_values(|l: Literal| l@) =~= enumerate@.map_values(
                |n: u8| LiteralView::Number(Number::U8(n)),
            ));
            Err(EnumerateErrorParams::new(literals))
        }
    }
}

impl ValidateEnumerate<u16> for u16 {
    fn validate_enumerate(&self, enumerate: &[u16]) -> (result: Result<(), EnumerateErrorParams>)
        ensures
            result is Ok <==> enumerate@.contains(*self),
            result matches Err(params) ==> params.enumerate@.map_values(|l: Literal| l@)
                == enumerate@.map_values(|n: u16| LiteralView::Number(Number::U16(n))),
    {
        let found: bool = validate_generic_enumerate(self, enumerate);
        proof {
            if found {
                let i = choose|i: int|
                    0 <= i < enumerate@.len() && #[trigger] enumerate@[i].eq_spec(self);
                assert(enumerate@[i] == *self);
            } else {
                assert forall|i: int| 0 <= i < enumerate@.len() implies enumerate@[i] != *self by {
                    assert(!enumerate@[i].eq_spec(self));
                }
            }
        }
        if found {
            Ok(())
        } else {
            let to_literal = |n: &u16| -> (l: Literal)
                ensures
                    l@ == LiteralView::Number(Number::U16(*n)),
                { Literal::Number(Number::U16(*n)) };
            let literals: Vec<Literal> = collect_literals(enumerate, to_literal);
            assert(literals@.map_values(|l: Literal| l@) =~= enumerate@.map_values(
                |n: u16| LiteralView::Number(Number::U16(n)),
            ));
            Err(EnumerateErrorParams::new(literals))
        }
    }
}

impl ValidateEnumerate<u32> for u32 {
    fn validate_enumerate(&self, enumerate: &[u32]) -> (result: Result<(), EnumerateErrorParams>)
        ensures
            result is Ok <==> enumerate@.contains(*self),
            result matches Err(params) ==> params.enumerate@.map_values(|l: Literal| l@)
                == enumerate@.map_values(|n: u32| LiteralView::Number(Number::U32(n))),
    {
        let found: bool = validate_generic_enumerate(self, enumerate);
        proof {
            if found {
                let i = choose|i: int|
                    0 <= i < enumerate@.len() && #[trigger] enumerate@[i].eq_spec(self);
                assert(enumerate@[i] == *self);
            } else {
                assert forall|i: int| 0 <= i < enumerate@.len() implies enumerate@[i] != *self by {
                    assert(!enumerate@[i].eq_spec(self));
                }
            }
        }
        if found {
            Ok(())
        } else {
            let to_literal = |n: &u32| -> (l: Literal)
                ensures
                    l@ == LiteralView::Number(Number::U32(*n)),
                { Literal::Number(Number::U32(*n)) };
            let literals: Vec<Literal> = collect_literals(enumerate, to_literal);
            assert(literals@.map_values(|l: Literal| l@) =~= enumerate@.map_values(
                |n: u32| LiteralView::Number(Number::U32(n)),
            ));
            Err(EnumerateErrorParams::new(literals))
        }
    }
}

impl ValidateEnumerate<u64> for u64 {
    fn validate_enumerate(&self, enumerate: &[u64]) -> (result: Result<(), EnumerateErrorParams>)
        ensures
            result is Ok <==> enumerate@.contains(*self),
            result matches Err(params) ==> params.enumerate@.map_values(|l: Literal| l@)
                == enumerate@.map_values(|n: u64| LiteralView::Number(Number::U64(n))),
    {
        let found: bool = validate_generic_enumerate(self, enumerate);
        proof {
            if found {
                let i = choose|i: int|
                    0 <= i < enumerate@.len() && #[trigger] enumerate@[i].eq_spec(self);
                assert(enumerate@[i] == *self);
            } else {
                assert forall|i: int| 0 <= i < enumerate@.len() implies enumerate@[i] != *self by {
                    assert(!enumerate@[i].eq_spec(self));
                }
            }
        }
        if found {
            Ok(())
        } else {
            let to_literal = |n: &u64| -> (l: Literal)
                ensures
                    l@ == LiteralView::Number(Number::U64(*n)),
                { Literal::Number(Number::U64(*n)) };
            let literals: Vec<Literal> = collect_literals(enumerate, to_literal);
            assert(literals@.map_values(|l: Literal| l@) =~= enumerate@.map_values(
                |n: u64| LiteralView::Number(Number::U64(n)),
            ));
            Err(EnumerateErrorParams::new(literals))
        }
    }
}

impl ValidateEnumerate<u128> for u128 {
    fn validate_enumerate(&self, enumerate: &[u128]) -> (result: Result<(), EnumerateErrorParams>)
        ensures
            result is Ok <==> enumerate@.contains(*self),
            result matches Err(params) ==> params.enumerate@.map_values(|l: Literal| l@)
                == enumerate@.map_values(|n: u128| LiteralView::Number(Number::U128(n))),
    {
        let found: bool = validate_generic_enumerate(self, enumerate);
        proof {
            if found {
                let i = choose|i: int|
                    0 <= i < enumerate@.len() && #[trigger] enumerate@[i].eq_spec(self);
                assert(enumerate@[i] == *self);
            } else {
                assert forall|i: int| 0 <= i < enumerate@.len() implies enumerate@[i] != *self by {
                    assert(!enumerate@[i].eq_spec(self));
                }
            }
        }
        if found {
            Ok(())
        } else {
            let to_literal = |n: &u128| -> (l: Literal)
                ensures
                    l@ == LiteralView::Number(Number::U128(*n)),
                { Literal::Number(Number::U128(*n)) };
            let literals: Vec<Literal> = collect_literals(enumerate, to_literal);
            assert(literals@.map_values(|l: Literal| l@) =~= enumerate@.map_values(
                |n: u128| LiteralView::Number(Number::U128(n)),
            ));
            Err(EnumerateErrorParams::new(literals))
        }
    }
}

impl ValidateEnumerate<usize> for usize {
    fn validate_enumerate(&self, enumerate: &[usize]) -> (result: Result<(), EnumerateErrorParams>)
        ensures
            result is Ok <==> enumerate@.contains(*self),
            result matches Err(params) ==> params.enumerate@.map_values(|l: Literal| l@)
                == enumerate@.map_values(|n: usize| LiteralView::Number(Number::Usize(n))),
    {
        let found: bool = validate_generic_enumerate(self, enumerate);
        proof {
            if found {
                let i = choose|i: int|
                    0 <= i < enumerate@.len() && #[trigger] enumerate@[i].eq_spec(self);
                assert(enumerate@[i] == *self);
            } else {
                assert forall|i: int| 0 <= i < enumerate@.len() implies enumerate@[i] != *self by {
                    assert(!enumerate@[i].eq_spec(self));
                }
            }
        }
        if found {
            Ok(())
        } else {
            let to_literal = |n: &usize| -> (l: Literal)
                ensures
                    l@ == LiteralView::Number(Number::Usize(*n)),
                { Literal::Number(Number::Usize(*n)) };
            let literals: Vec<Literal> = collect_literals(enumerate, to_literal);
            assert(literals@.map_values(|l: Literal| l@) =~= enumerate@.map_values(
                |n: usize| LiteralView::Number(Number::Usize(n)),
            ));
            Err(EnumerateErrorParams::new(literals))
        }
    }
}

impl ValidateEnumerate<bool> for bool {
    fn validate_enumerate(&self, enumerate: &[bool]) -> (result: Result<(), EnumerateErrorParams>)
        ensures
            result is Ok <==> enumerate@.contains(*self),
            result matches Err(params) ==> params.enumerate@.map_values(|l: Literal| l@)
                == enumerate@.map_values(|b: bool| LiteralView::Bool(b)),
    {
        let found: bool = validate_generic_enumerate(self, enumerate);
        proof {
            if found {
                let i = choose|i: int|
                    0 <= i < enumerate@.len() && #[trigger] enumerate@[i].eq_spec(self);
                assert(enumerate@[i] == *self);
            } else {
                assert forall|i: int| 0 <= i < enumerate@.len() implies enumerate@[i] != *self by {
                    assert(!enumerate@[i].eq_spec(self));
                }
            }
        }
        if found {
            Ok(())
        } else {
            let to_literal = |b: &bool| -> (l: Literal)
                ensures
                    l@ == LiteralView::Bool(*b),
                { Literal::Bool(*b) };
            let literals: Vec<Literal> = collect_literals(enumerate, to_literal);
            assert(literals@.map_values(|l: Literal| l@) =~= enumerate@.map_values(
                |b: bool| LiteralView::Bool(b),
            ));
            Err(EnumerateErrorParams::new(literals))
        }
    }
}

/// A character as a candidate value.
pub open spec fn char_literal(c: char) -> LiteralView {
    LiteralView::Char(c)
}

impl ValidateEnumerate<char> for char {
    fn validate_enumerate(&self, enumerate: &[char]) -> (result: Result<(), EnumerateErrorParams>)
        ensures
            result is Ok <==> enumerate@.contains(*self),
            result matches Err(params) ==> params.enumerate@.map_values(|l: Literal| l@)
                == enumerate@.map_values(|c: char| char_literal(c)),
    {
        let mut i: usize = 0;
        while i < enumerate.len()
            invariant
                i <= enumerate@.len(),
                forall|k: int| 0 <= k < i ==> enumerate@[k] != *self,
            decreases enumerate@.len() - i,
        {
            if enumerate[i] == *self {
                return Ok(());
            }
            i = i + 1;
        }
        let to_literal = |c: &char| -> (l: Literal)
            ensures
                l@ == LiteralView::Char(*c),
            { Literal::Char(*c) };
        let literals: Vec<Literal> = collect_literals(enumerate, to_literal);
        assert(literals@.map_values(|l: Literal| l@) =~= enumerate@.map_values(
            |c: char| char_literal(c),
        ));
        Err(EnumerateErrorParams::new(literals))
    }
}

/// The result that a text owes against candidate texts for a given answer of the search.
pub fn text_enumerate_result(
    found: bool,
    enumerate: &[&'static str],
) -> (result: Result<(), EnumerateErrorParams>)
    ensures
        result is Ok <==> found,
        result matches Err(params) ==> params.enumerate@.map_values(|l: Literal| l@)
            == enumerate@.map_values(|s: &'static str| LiteralView::Str(s@)),
{
    if found {
        Ok(())
    } else {
        let to_literal = |s: &&'static str| -> (l: Literal)
            ensures
                l@ == LiteralView::Str((*s)@),
            { Literal::Str((*s).to_owned()) };
        let literals: Vec<Literal> = collect_literals(enumerate, to_literal);
        assert(literals@.map_values(|l: Literal| l@) =~= enumerate@.map_values(
            |s: &'static str| LiteralView::Str(s@),
        ));
        Err(EnumerateErrorParams::new(literals))
    }
}

impl ValidateEnumerate<&'static str> for str {
    fn validate_enumerate(
        &self,
        enumerate: &[&'static str],
    ) -> (result: Result<(), EnumerateErrorParams>)
        ensures
            result is Ok <==> is_text_candidate(self@, enumerate@),
            result matches Err(params) ==> params.enumerate@.map_values(|l: Literal| l@)
                == enumerate@.map_values(|s: &'static str| LiteralView::Str(s@)),
    {
        text_enumerate_result(validate_text_enumerate(self, enumerate), enumerate)
    }
}

impl ValidateEnumerate<&'static str> for &str {
    fn validate_enumerate(
        &self,
        enumerate: &[&'static str],
    ) -> (result: Result<(), EnumerateErrorParams>)
        ensures
            result is Ok <==> is_text_candidate(self@, enumerate@),
            result matches Err(params) ==> params.enumerate@.map_values(|l: Literal| l@)
                == enumerate@.map_values(|s: &'static str| LiteralView::Str(s@)),
    {
        text_enumerate_result(validate_text_enumerate(*self, enumerate), enumerate)
    }
}

impl ValidateEnumerate<&'static str> for String {
    fn validate_enumerate(
        &self,
        enumerate: &[&'static str],
    ) -> (result: Result<(), EnumerateErrorParams>)
        ensures
            result is Ok <==> is_text_candidate(self@, enumerate@),
            result matches Err(params) ==> params.enumerate@.map_values(|l: Literal| l@)
                == enumerate@.map_values(|s: &'static str| LiteralView::Str(s@)),
    {
        text_enumerate_result(validate_text_enumerate(self.as_str(), enumerate), enumerate)
    }
}

} // verus!
