use crate::error::{ExclusiveMaximumErrorParams, Number};
use vstd::prelude::*;

verus! {

/// Exclusive maximum validation of the number.
///
/// See <https://json-schema.org/understanding-json-schema/reference/numeric.html#range>
pub trait ValidateExclusiveMaximum<T> where T: PartialOrd + PartialEq {
    fn validate_exclusive_maximum(
        &self,
        exclusive_maximum: T,
    ) -> Result<(), ExclusiveMaximumErrorParams>;
}

impl ValidateExclusiveMaximum<i8> for i8 {
    fn validate_exclusive_maximum(
        &self,
        exclusive_maximum: i8,
    ) -> (result: Result<(), ExclusiveMaximumErrorParams>)
        ensures
            result is Ok <==> *self < exclusive_maximum,
            result matches Err(params) ==> params.exclusive_maximum
                == Number::I8(exclusive_maximum),
    {
        if *self < exclusive_maximum {
            Ok(())
        } else {
            Err(ExclusiveMaximumErrorParams::new(Number::I8(exclusive_maximum)))
        }
    }
}

impl ValidateExclusiveMaximum<i16> for i16 {
    fn validate_exclusive_maximum(
        &self,
        exclusive_maximum: i16,
    ) -> (result: Result<(), ExclusiveMaximumErrorParams>)
        ensures
            result is Ok <==> *self < exclusive_maximum,
            result matches Err(params) ==> params.exclusive_maximum
                == Number::I16(exclusive_maximum),
    {
        if *self < exclusive_maximum {
            Ok(())
        } else {
            Err(ExclusiveMaximumErrorParams::new(Number::I16(exclusive_maximum)))
        }
    }
}

impl ValidateExclusiveMaximum<i32> for i32 {
    fn validate_exclusive_maximum(
        &self,
        exclusive_maximum: i32,
    ) -> (result: Result<(), ExclusiveMaximumErrorParams>)
        ensures
            result is Ok <==> *self < exclusive_maximum,
            result matches Err(params) ==> params.exclusive_maximum
                == Number::I32(exclusive_maximum),
    {
        if *self < exclusive_maximum {
            Ok(())
        } else {
            Err(ExclusiveMaximumErrorParams::new(Number::I32(exclusive_maximum)))
        }
    }
}

impl ValidateExclusiveMaximum<i64> for i64 {
    fn validate_exclusive_maximum(
        &self,
        exclusive_maximum: i64,
    ) -> (result: Result<(), ExclusiveMaximumErrorParams>)
        ensures
            result is Ok <==> *self < exclusive_maximum,
            result matches Err(params) ==> params.exclusive_maximum
                == Number::I64(exclusive_maximum),
    {
        if *self < exclusive_maximum {
            Ok(())
        } else {
            Err(ExclusiveMaximumErrorParams::new(Number::I64(exclusive_maximum)))
        }
    }
}

impl ValidateExclusiveMaximum<i128> for i128 {
    fn validate_exclusive_maximum(
        &self,
        exclusive_maximum: i128,
    ) -> (result: Result<(), ExclusiveMaximumErrorParams>)
        ensures
            result is Ok <==> *self < exclusive_maximum,
            result matches Err(params) ==> params.exclusive_maximum
                == Number::I128(exclusive_maximum),
    {
        if *self < exclusive_maximum {
            Ok(())
        } else {
            Err(ExclusiveMaximumErrorParams::new(Number::I128(exclusive_maximum)))
        }
    }
}

impl ValidateExclusiveMaximum<isize> for isize {
    fn validate_exclusive_maximum(
        &self,
        exclusive_maximum: isize,
    ) -> (result: Result<(), ExclusiveMaximumErrorParams>)
        ensures
            result is Ok <==> *self < exclusive_maximum,
            result matches Err(params) ==> params.exclusive_maximum
                == Number::Isize(exclusive_maximum),
    {
        if *self < exclusive_maximum {
            Ok(())
        } else {
            Err(ExclusiveMaximumErrorParams::new(Number::Isize(exclusive_maximum)))
        }
    }
}

impl ValidateExclusiveMaximum<u8> for u8 {
    fn validate_exclusive_maximum(
        &self,
        exclusive_maximum: u8,
    ) -> (result: Result<(), ExclusiveMaximumErrorParams>)
        ensures
            result is Ok <==> *self < exclusive_maximum,
            result matches Err(params) ==> params.exclusive_maximum
                == Number::U8(exclusive_maximum),
    {
        if *self < exclusive_maximum {
            Ok(())
        } else {
            Err(ExclusiveMaximumErrorParams::new(Number::U8(exclusive_maximum)))
        }
    }
}

impl ValidateExclusiveMaximum<u16> for u16 {
    fn validate_exclusive_maximum(
        &self,
        exclusive_maximum: u16,
    ) -> (result: Result<(), ExclusiveMaximumErrorParams>)
        ensures
            result is Ok <==> *self < exclusive_maximum,
            result matches Err(params) ==> params.exclusive_maximum
                == Number::U16(exclusive_maximum),
    {
        if *self < exclusive_maximum {
            Ok(())
        } else {
            Err(ExclusiveMaximumErrorParams::new(Number::U16(exclusive_maximum)))
        }
    }
}

impl ValidateExclusiveMaximum<u32> for u32 {
    fn validate_exclusive_maximum(
        &self,
        exclusive_maximum: u32,
    ) -> (result: Result<(), ExclusiveMaximumErrorParams>)
        ensures
            result is Ok <==> *self < exclusive_maximum,
            result matches Err(params) ==> params.exclusive_maximum
                == Number::U32(exclusive_maximum),
    {
        if *self < exclusive_maximum {
            Ok(())
        } else {
            Err(ExclusiveMaximumErrorParams::new(Number::U32(exclusive_maximum)))
        }
    }
}

impl ValidateExclusiveMaximum<u64> for u64 {
    fn validate_exclusive_maximum(
        &self,
        exclusive_maximum: u64,
    ) -> (result: Result<(), ExclusiveMaximumErrorParams>)
        ensures
            result is Ok <==> *self < exclusive_maximum,
            result matches Err(params) ==> params.exclusive_maximum
                == Number::U64(exclusive_maximum),
    {
        if *self < exclusive_maximum {
            Ok(())
        } else {
            Err(ExclusiveMaximumErrorParams::new(Number::U64(exclusive_maximum)))
        }
    }
}

impl ValidateExclusiveMaximum<u128> for u128 {
    fn validate_exclusive_maximum(
        &self,
        exclusive_maximum: u128,
    ) -> (result: Result<(), ExclusiveMaximumErrorParams>)
        ensures
            result is Ok <==> *self < exclusive_maximum,
            result matches Err(params) ==> params.exclusive_maximum
                == Number::U128(exclusive_maximum),
    {
        if *self < exclusive_maximum {
            Ok(())
        } else {
            Err(ExclusiveMaximumErrorParams::new(Number::U128(exclusive_maximum)))
        }
    }
}

impl ValidateExclusiveMaximum<usize> for usize {
    fn validate_exclusive_maximum(
        &self,
        exclusive_maximum: usize,
    ) -> (result: Result<(), ExclusiveMaximumErrorParams>)
        ensures
            result is Ok <==> *self < exclusive_maximum,
            result matches Err(params) ==> params.exclusive_maximum
                == Number::Usize(exclusive_maximum),
    {
        if *self < exclusive_maximum {
            Ok(())
        } else {
            Err(ExclusiveMaximumErrorParams::new(Number::Usize(exclusive_maximum)))
        }
    }
}

} // verus!
