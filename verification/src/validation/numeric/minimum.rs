use crate::error::{MinimumErrorParams, Number};
use vstd::prelude::*;

verus! {

/// Minimum validation of the number.
///
/// See <https://json-schema.org/understanding-json-schema/reference/numeric.html#range>
pub trait ValidateMinimum<T> where T: PartialOrd + PartialEq {
    fn validate_minimum(&self, minimum: T) -> Result<(), MinimumErrorParams>;
}

impl ValidateMinimum<i8> for i8 {
    fn validate_minimum(&self, minimum: i8) -> (result: Result<(), MinimumErrorParams>)
        ensures
            result is Ok <==> *self >= minimum,
            result matches Err(params) ==> params.minimum == Number::I8(minimum),
    {
        if *self >= minimum {
            Ok(())
        } else {
            Err(MinimumErrorParams::new(Number::I8(minimum)))
        }
    }
}

impl ValidateMinimum<i16> for i16 {
    fn validate_minimum(&self, minimum: i16) -> (result: Result<(), MinimumErrorParams>)
        ensures
            result is Ok <==> *self >= minimum,
            result matches Err(params) ==> params.minimum == Number::I16(minimum),
    {
        if *self >= minimum {
            Ok(())
        } else {
            Err(MinimumErrorParams::new(Number::I16(minimum)))
        }
    }
}

impl ValidateMinimum<i32> for i32 {
    fn validate_minimum(&self, minimum: i32) -> (result: Result<(), MinimumErrorParams>)
        ensures
            result is Ok <==> *self >= minimum,
            result matches Err(params) ==> params.minimum == Number::I32(minimum),
    {
        if *self >= minimum {
            Ok(())
        } else {
            Err(MinimumErrorParams::new(Number::I32(minimum)))
        }
    }
}

impl ValidateMinimum<i64> for i64 {
    fn validate_minimum(&self, minimum: i64) -> (result: Result<(), MinimumErrorParams>)
        ensures
            result is Ok <==> *self >= minimum,
            result matches Err(params) ==> params.minimum == Number::I64(minimum),
    {
        if *self >= minimum {
            Ok(())
        } else {
            Err(MinimumErrorParams::new(Number::I64(minimum)))
        }
    }
}

impl ValidateMinimum<i128> for i128 {
    fn validate_minimum(&self, minimum: i128) -> (result: Result<(), MinimumErrorParams>)
        ensures
            result is Ok <==> *self >= minimum,
            result matches Err(params) ==> params.minimum == Number::I128(minimum),
    {
        if *self >= minimum {
            Ok(())
        } else {
            Err(MinimumErrorParams::new(Number::I128(minimum)))
        }
    }
}

impl ValidateMinimum<isize> for isize {
    fn validate_minimum(&self, minimum: isize) -> (result: Result<(), MinimumErrorParams>)
        ensures
            result is Ok <==> *self >= minimum,
            result matches Err(params) ==> params.minimum == Number::Isize(minimum),
    {
        if *self >= minimum {
            Ok(())
        } else {
            Err(MinimumErrorParams::new(Number::Isize(minimum)))
        }
    }
}

impl ValidateMinimum<u8> for u8 {
    fn validate_minimum(&self, minimum: u8) -> (result: Result<(), MinimumErrorParams>)
        ensures
            result is Ok <==> *self >= minimum,
            result matches Err(params) ==> params.minimum == Number::U8(minimum),
    {
        if *self >= minimum {
            Ok(())
        } else {
            Err(MinimumErrorParams::new(Number::U8(minimum)))
        }
    }
}

impl ValidateMinimum<u16> for u16 {
    fn validate_minimum(&self, minimum: u16) -> (result: Result<(), MinimumErrorParams>)
        ensures
            result is Ok <==> *self >= minimum,
            result matches Err(params) ==> params.minimum == Number::U16(minimum),
    {
        if *self >= minimum {
            Ok(())
        } else {
            Err(MinimumErrorParams::new(Number::U16(minimum)))
        }
    }
}

impl ValidateMinimum<u32> for u32 {
    fn validate_minimum(&self, minimum: u32) -> (result: Result<(), MinimumErrorParams>)
        ensures
            result is Ok <==> *self >= minimum,
            result matches Err(params) ==> params.minimum == Number::U32(minimum),
    {
        if *self >= minimum {
            Ok(())
        } else {
            Err(MinimumErrorParams::new(Number::U32(minimum)))
        }
    }
}

impl ValidateMinimum<u64> for u64 {
    fn validate_minimum(&self, minimum: u64) -> (result: Result<(), MinimumErrorParams>)
        ensures
            result is Ok <==> *self >= minimum,
            result matches Err(params) ==> params.minimum == Number::U64(minimum),
    {
        if *self >= minimum {
            Ok(())
        } else {
            Err(MinimumErrorParams::new(Number::U64(minimum)))
        }
    }
}

impl ValidateMinimum<u128> for u128 {
    fn validate_minimum(&self, minimum: u128) -> (result: Result<(), MinimumErrorParams>)
        ensures
            result is Ok <==> *self >= minimum,
            result matches Err(params) ==> params.minimum == Number::U128(minimum),
    {
        if *self >= minimum {
            Ok(())
        } else {
            Err(MinimumErrorParams::new(Number::U128(minimum)))
        }
    }
}

impl ValidateMinimum<usize> for usize {
    fn validate_minimum(&self, minimum: usize) -> (result: Result<(), MinimumErrorParams>)
        ensures
            result is Ok <==> *self >= minimum,
            result matches Err(params) ==> params.minimum == Number::Usize(minimum),
    {
        if *self >= minimum {
            Ok(())
        } else {
            Err(MinimumErrorParams::new(Number::Usize(minimum)))
        }
    }
}

} // verus!
