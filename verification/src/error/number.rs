use vstd::prelude::*;
use vstd::string::StringExecFns;

verus! {

/// A bound or parameter of a numeric constraint, kept in the integer type it was declared in.
#[derive(Clone, Copy, Debug, PartialEq, Eq, Structural)]
pub enum Number {
    I8(i8),
    I16(i16),
    I32(i32),
    I64(i64),
    I128(i128),
    Isize(isize),
    U8(u8),
    U16(u16),
    U32(u32),
    U64(u64),
    U128(u128),
    Usize(usize),
}

/// The character that writes one decimal digit.
pub open spec fn digit_char(d: int) -> char {
    if d == 0 {
        '0'
    } else if d == 1 {
        '1'
    } else if d == 2 {
        '2'
    } else if d == 3 {
        '3'
    } else if d == 4 {
        '4'
    } else if d == 5 {
        '5'
    } else if d == 6 {
        '6'
    } else if d == 7 {
        '7'
    } else if d == 8 {
        '8'
    } else {
        '9'
    }
}

/// Decimal digits of a natural number, most significant first, without leading zeros.
pub open spec fn decimal_nat(n: nat) -> Seq<char>
    decreases n,
{
    if n < 10 {
        seq![digit_char(n as int)]
    } else {
        decimal_nat(n / 10).push(digit_char((n % 10) as int))
    }
}

/// Decimal text of an integer: a minus sign for negative values, then the digits of the magnitude.
pub open spec fn decimal(n: int) -> Seq<char> {
    if n < 0 {
        seq!['-'] + decimal_nat((-n) as nat)
    } else {
        decimal_nat(n as nat)
    }
}

/// Whether `value` is a whole multiple of `divisor`. Zero alone is a multiple of zero; the signs
/// of the two play no part.
pub open spec fn is_multiple(value: int, divisor: int) -> bool {
    if divisor == 0 {
        value == 0
    } else {
        abs(value) % abs(divisor) == 0
    }
}

/// The absolute value of an integer.
pub open spec fn abs(n: int) -> int {
    if n < 0 {
        -n
    } else {
        n
    }
}

fn digit_str(d: u8) -> (s: &'static str)
    requires
        d < 10,
    ensures
        s@ == seq![digit_char(d as int)],
{
    proof {
        reveal_strlit("0");
        reveal_strlit("1");
        reveal_strlit("2");
        reveal_strlit("3");
        reveal_strlit("4");
        reveal_strlit("5");
        reveal_strlit("6");
        reveal_strlit("7");
        reveal_strlit("8");
        reveal_strlit("9");
    }
    let s: &'static str = if d == 0 {
        "0"
    } else if d == 1 {
        "1"
    } else if d == 2 {
        "2"
    } else if d == 3 {
        "3"
    } else if d == 4 {
        "4"
    } else if d == 5 {
        "5"
    } else if d == 6 {
        "6"
    } else if d == 7 {
        "7"
    } else if d == 8 {
        "8"
    } else {
        "9"
    };
    assert(s@ =~= seq![digit_char(d as int)]);
    s
}

/// Appends the decimal digits of `n` to `out`.
pub fn push_decimal(out: &mut String, n: u128)
    ensures
        final(out)@ == old(out)@ + decimal_nat(n as nat),
    decreases n,
{
    if n >= 10 {
        push_decimal(out, n / 10);
    }
    let d: u8 = (n % 10) as u8;
    out.append(digit_str(d));
    proof {
        if n >= 10 {
            assert(final(out)@ =~= old(out)@ + decimal_nat(n as nat));
        } else {
            assert(final(out)@ =~= old(out)@ + decimal_nat(n as nat));
        }
    }
}

impl Number {
    /// The mathematical value of the number.
    pub open spec fn value(self) -> int {
        match self {
            Number::I8(n) => n as int,
            Number::I16(n) => n as int,
            Number::I32(n) => n as int,
            Number::I64(n) => n as int,
            Number::I128(n) => n as int,
            Number::Isize(n) => n as int,
            Number::U8(n) => n as int,
            Number::U16(n) => n as int,
            Number::U32(n) => n as int,
            Number::U64(n) => n as int,
            Number::U128(n) => n as int,
            Number::Usize(n) => n as int,
        }
    }

    /// Whether the number is below zero.
    pub fn is_negative(&self) -> (negative: bool)
        ensures
            negative == (self.value() < 0),
    {
        match *self {
            Number::I8(n) => n < 0,
            Number::I16(n) => n < 0,
            Number::I32(n) => n < 0,
            Number::I64(n) => n < 0,
            Number::I128(n) => n < 0,
            Number::Isize(n) => n < 0,
            _ => false,
        }
    }

    /// The absolute value of the number.
    pub fn magnitude(&self) -> (m: u128)
        ensures
            m == abs(self.value()),
    {
        match *self {
            Number::I8(n) => signed_magnitude(n as i128),
            Number::I16(n) => signed_magnitude(n as i128),
            Number::I32(n) => signed_magnitude(n as i128),
            Number::I64(n) => signed_magnitude(n as i128),
            Number::I128(n) => signed_magnitude(n),
            Number::Isize(n) => signed_magnitude(n as i128),
            Number::U8(n) => n as u128,
            Number::U16(n) => n as u128,
            Number::U32(n) => n as u128,
            Number::U64(n) => n as u128,
            Number::U128(n) => n,
            Number::Usize(n) => n as u128,
        }
    }

    /// `self >= bound`, by value.
    pub fn at_least(&self, bound: &Number) -> (holds: bool)
        ensures
            holds == (self.value() >= bound.value()),
    {
        let negative: bool = self.is_negative();
        let bound_negative: bool = bound.is_negative();
        if negative {
            bound_negative && self.magnitude() <= bound.magnitude()
        } else {
            bound_negative || self.magnitude() >= bound.magnitude()
        }
    }

    /// `self <= bound`, by value.
    pub fn at_most(&self, bound: &Number) -> (holds: bool)
        ensures
            holds == (self.value() <= bound.value()),
    {
        bound.at_least(self)
    }

    /// `self > bound`, by value.
    pub fn above(&self, bound: &Number) -> (holds: bool)
        ensures
            holds == (self.value() > bound.value()),
    {
        !bound.at_least(self)
    }

    /// `self < bound`, by value.
    pub fn below(&self, bound: &Number) -> (holds: bool)
        ensures
            holds == (self.value() < bound.value()),
    {
        !self.at_least(bound)
    }

    /// Whether the two numbers have the same value, whatever types they are kept in.
    pub fn same_value(&self, other: &Number) -> (holds: bool)
        ensures
            holds == (self.value() == other.value()),
    {
        self.is_negative() == other.is_negative() && self.magnitude() == other.magnitude()
    }

    /// Whether `self` is a whole multiple of `divisor`.
    pub fn is_multiple_of(&self, divisor: &Number) -> (holds: bool)
        ensures
            holds == is_multiple(self.value(), divisor.value()),
    {
        let by: u128 = divisor.magnitude();
        if by == 0 {
            self.magnitude() == 0
        } else {
            self.magnitude() % by == 0
        }
    }

    /// The number written in decimal.
    pub fn to_text(&self) -> (text: String)
        ensures
            text@ == decimal(self.value()),
    {
        let mut text: String = String::new();
        if self.is_negative() {
            text.append("-");
            proof {
                reveal_strlit("-");
                assert(text@ =~= seq!['-']);
            }
        }
        push_decimal(&mut text, self.magnitude());
        proof {
            assert(text@ =~= decimal(self.value()));
        }
        text
    }
}

fn signed_magnitude(n: i128) -> (m: u128)
    ensures
        m == abs(n as int),
{
    if n < 0 {
        let below: i128 = -(n + 1);
        (below as u128) + 1
    } else {
        n as u128
    }
}

} // verus!
