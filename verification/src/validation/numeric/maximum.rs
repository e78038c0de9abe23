use crate::error::{MaximumErrorParams, Number};
use vstd::prelude::*;

verus! {

/// Maximum validation of the number.
///
/// See <https://json-schema.org/understanding-json-schema/reference/numeric.html#range>
pub trait ValidateMaximum<T> where T: PartialOrd + PartialEq {
    fn validate_maximum(&self, maximum: T) -> Result<(), MaximumErrorParams>;
}

impl ValidateMaximum<i8> for i8 {
    fn validate_maximum(&self, maximum: i8) -> (result: Result<(), MaximumErrorParams>)
        ensures
            result is Ok <==> *self <= maximum,
            result matches Err(params) ==> params.maximum == Number::I8(maximum),
    {
        if *self <= maximum {
            Ok(())
        } else {
            Err(MaximumErrorParams::new(Number::I8(maximum)))
        }
    }
}

impl ValidateMaximum<i16> for i16 {
    fn validate_maximum(&self, maximum: i16) -> (result: Result<(), MaximumErrorParams>)
        ensures
            result is Ok <==> *self <= maximum,
            result matches Err(params) ==> params.maximum == Number::I16(maximum),
    {
        if *self <= maximum {
            Ok(())
        } else {
            Err(MaximumErrorParams::new(Number::I16(maximum)))
        }
    }
}

impl ValidateMaximum<i32> for i32 {
    fn validate_maximum(&self, maximum: i32) -> (result: Result<(), MaximumErrorParams>)
        ensures
            result is Ok <==> *self <= maximum,
            result matches Err(params) ==> params.maximum == Number::I32(maximum),
    {
        if *self <= maximum {
            Ok(())
        } else {
            Err(MaximumErrorParams::new(Number::I32(maximum)))
        }
    }
}

impl ValidateMaximum<i64> for i64 {
    fn validate_maximum(&self, maximum: i64) -> (result: Result<(), MaximumErrorParams>)
        ensures
            result is Ok <==> *self <= maximum,
            result matches Err(params) ==> params.maximum == Number::I64(maximum),
    {
        if *self <= maximum {
            Ok(())
        } else {
            Err(MaximumErrorParams::new(Number::I64(maximum)))
        }
    }
}

impl ValidateMaximum<i128> for i128 {
    fn validate_maximum(&self, maximum: i128) -> (result: Result<(), MaximumErrorParams>)
        ensures
            result is Ok <==> *self <= maximum,
            result matches Err(params) ==> params.maximum == Number::I128(maximum),
    {
        if *self <= maximum {
            Ok(())
        } else {
            Err(MaximumErrorParams::new(Number::I128(maximum)))
        }
    }
}

impl ValidateMaximum<isize> for isize {
    fn validate_maximum(&self, maximum: isize) -> (result: Result<(), MaximumErrorParams>)
        ensures
            result is Ok <==> *self <= maximum,
            result matches Err(params) ==> params.maximum == Number::Isize(maximum),
    {
        if *self <= maximum {
            Ok(())
        } else {
            Err(MaximumErrorParams::new(Number::Isize(maximum)))
        }
    }
}

impl ValidateMaximum<u8> for u8 {
    fn validate_maximum(&self, maximum: u8) -> (result: Result<(), MaximumErrorParams>)
        ensures
            result is Ok <==> *self <= maximum,
            result matches Err(params) ==> params.maximum == Number::U8(maximum),
    {
        if *self <= maximum {
            Ok(())
        } else {
            Err(MaximumErrorParams::new(Number::U8(maximum)))
        }
    }
}

impl ValidateMaximum<u16> for u16 {
    fn validate_maximum(&self, maximum: u16) -> (result: Result<(), MaximumErrorParams>)
        ensures
            result is Ok <==> *self <= maximum,
            result matches Err(params) ==> params.maximum == Number::U16(maximum),
    {
        if *self <= maximum {
            Ok(())
        } else {
            Err(MaximumErrorParams::new(Number::U16(maximum)))
        }
    }
}

impl ValidateMaximum<u32> for u32 {
    fn validate_maximum(&self, maximum: u32) -> (result: Result<(), MaximumErrorParams>)
        ensures
            result is Ok <==> *self <= maximum,
            result matches Err(params) ==> params.maximum == Number::U32(maximum),
    {
        if *self <= maximum {
            Ok(())
        } else {
            Err(MaximumErrorParams::new(Number::U32(maximum)))
        }
    }
}

impl ValidateMaximum<u64> for u64 {
    fn validate_maximum(&self, maximum: u64) -> (result: Result<(), MaximumErrorParams>)
        ensures
            result is Ok <==> *self <= maximum,
            result matches Err(params) ==> params.maximum == Number::U64(maximum),
    {
        if *self <= maximum {
            Ok(())
        } else {
            Err(MaximumErrorParams::new(Number::U64(maximum)))
        }
    }
}

impl ValidateMaximum<u128> for u128 {
    fn validate_maximum(&self, maximum: u128) -> (result: Result<(), MaximumErrorParams>)
        ensures
            result is Ok <==> *self <= maximum,
            result matches Err(params) ==> params.maximum == Number::U128(maximum),
    {
        if *self <= maximum {
            Ok(())
        } else {
            Err(MaximumErrorParams::new(Number::U128(maximum)))
        }
    }
}

impl ValidateMaximum<usize> for usize {
    fn validate_maximum(&self, maximum: usize) -> (result: Result<(), MaximumErrorParams>)
        ensures
            result is Ok <==> *self <= maximum,
            result matches Err(params) ==> params.maximum == Number::Usize(maximum),
    {
        if *self <= maximum {
            Ok(())
        } else {
            Err(MaximumErrorParams::new(Number::Usize(maximum)))
        }
    }
}

} // verus!
