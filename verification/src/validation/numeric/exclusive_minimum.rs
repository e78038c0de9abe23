use crate::error::{ExclusiveMinimumErrorParams, Number};
use vstd::prelude::*;

verus! {

/// Exclusive minimum validation of the number.
///
/// See <https://json-schema.org/understanding-json-schema/reference/numeric.html#range>
pub trait ValidateExclusiveMinimum<T> where T: PartialOrd + PartialEq {
    fn validate_exclusive_minimum(
        &self,
        exclusive_minimum: T,
    ) -> Result<(), ExclusiveMinimumErrorParams>;
}

impl ValidateExclusiveMinimum<i8> for i8 {
    fn validate_exclusive_minimum(
        &self,
        exclusive_minimum: i8,
    ) -> (result: Result<(), ExclusiveMinimumErrorParams>)
        ensures
            result is Ok <==> *self > exclusive_minimum,
            result matches Err(params) ==> params.exclusive_minimum
                == Number::I8(exclusive_minimum),
    {
        if *self > exclusive_minimum {
            Ok(())
        } else {
            Err(ExclusiveMinimumErrorParams::new(Number::I8(exclusive_minimum)))
        }
    }
}

impl ValidateExclusiveMinimum<i16> for i16 {
    fn validate_exclusive_minimum(
        &self,
        exclusive_minimum: i16,
    ) -> (result: Result<(), ExclusiveMinimumErrorParams>)
        ensures
            result is Ok <==> *self > exclusive_minimum,
            result matches Err(params) ==> params.exclusive_minimum
                == Number::I16(exclusive_minimum),
    {
        if *self > exclusive_minimum {
            Ok(())
        } else {
            Err(ExclusiveMinimumErrorParams::new(Number::I16(exclusive_minimum)))
        }
    }
}

impl ValidateExclusiveMinimum<i32> for i32 {
    fn validate_exclusive_minimum(
        &self,
        exclusive_minimum: i32,
    ) -> (result: Result<(), ExclusiveMinimumErrorParams>)
        ensures
            result is Ok <==> *self > exclusive_minimum,
            result matches Err(params) ==> params.exclusive_minimum
                == Number::I32(exclusive_minimum),
    {
        if *self > exclusive_minimum {
            Ok(())
        } else {
            Err(ExclusiveMinimumErrorParams::new(Number::I32(exclusive_minimum)))
        }
    }
}

impl ValidateExclusiveMinimum<i64> for i64 {
    fn validate_exclusive_minimum(
        &self,
        exclusive_minimum: i64,
    ) -> (result: Result<(), ExclusiveMinimumErrorParams>)
        ensures
            result is Ok <==> *self > exclusive_minimum,
            result matches Err(params) ==> params.exclusive_minimum
                == Number::I64(exclusive_minimum),
    {
        if *self > exclusive_minimum {
            Ok(())
        } else {
            Err(ExclusiveMinimumErrorParams::new(Number::I64(exclusive_minimum)))
        }
    }
}

impl ValidateExclusiveMinimum<i128> for i128 {
    fn validate_exclusive_minimum(
        &self,
        exclusive_minimum: i128,
    ) -> (result: Result<(), ExclusiveMinimumErrorParams>)
        ensures
            result is Ok <==> *self > exclusive_minimum,
            result matches Err(params) ==> params.exclusive_minimum
                == Number::I128(exclusive_minimum),
    {
        if *self > exclusive_minimum {
            Ok(())
        } else {
            Err(ExclusiveMinimumErrorParams::new(Number::I128(exclusive_minimum)))
        }
    }
}

impl ValidateExclusiveMinimum<isize> for isize {
    fn validate_exclusive_minimum(
        &self,
        exclusive_minimum: isize,
    ) -> (result: Result<(), ExclusiveMinimumErrorParams>)
        ensures
            result is Ok <==> *self > exclusive_minimum,
            result matches Err(params) ==> params.exclusive_minimum
                == Number::Isize(exclusive_minimum),
    {
        if *self > exclusive_minimum {
            Ok(())
        } else {
            Err(ExclusiveMinimumErrorParams::new(Number::Isize(exclusive_minimum)))
        }
    }
}

impl ValidateExclusiveMinimum<u8> for u8 {
    fn validate_exclusive_minimum(
        &self,
        exclusive_minimum: u8,
    ) -> (result: Result<(), ExclusiveMinimumErrorParams>)
        ensures
            result is Ok <==> *self > exclusive_minimum,
            result matches Err(params) ==> params.exclusive_minimum
                == Number::U8(exclusive_minimum),
    {
        if *self > exclusive_minimum {
            Ok(())
        } else {
            Err(ExclusiveMinimumErrorParams::new(Number::U8(exclusive_minimum)))
        }
    }
}

impl ValidateExclusiveMinimum<u16> for u16 {
    fn validate_exclusive_minimum(
        &self,
        exclusive_minimum: u16,
    ) -> (result: Result<(), ExclusiveMinimumErrorParams>)
        ensures
            result is Ok <==> *self > exclusive_minimum,
            result matches Err(params) ==> params.exclusive_minimum
                == Number::U16(exclusive_minimum),
    {
        if *self > exclusive_minimum {
            Ok(())
        } else {
            Err(ExclusiveMinimumErrorParams::new(Number::U16(exclusive_minimum)))
        }
    }
}

impl ValidateExclusiveMinimum<u32> for u32 {
    fn validate_exclusive_minimum(
        &self,
        exclusive_minimum: u32,
    ) -> (result: Result<(), ExclusiveMinimumErrorParams>)
        ensures
            result is Ok <==> *self > exclusive_minimum,
            result matches Err(params) ==> params.exclusive_minimum
                == Number::U32(exclusive_minimum),
    {
        if *self > exclusive_minimum {
            Ok(())
        } else {
            Err(ExclusiveMinimumErrorParams::new(Number::U32(exclusive_minimum)))
        }
    }
}

impl ValidateExclusiveMinimum<u64> for u64 {
    fn validate_exclusive_minimum(
        &self,
        exclusive_minimum: u64,
    ) -> (result: Result<(), ExclusiveMinimumErrorParams>)
        ensures
            result is Ok <==> *self > exclusive_minimum,
            result matches Err(params) ==> params.exclusive_minimum
                == Number::U64(exclusive_minimum),
    {
        if *self > exclusive_minimum {
            Ok(())
        } else {
            Err(ExclusiveMinimumErrorParams::new(Number::U64(exclusive_minimum)))
        }
    }
}

impl ValidateExclusiveMinimum<u128> for u128 {
    fn validate_exclusive_minimum(
        &self,
        exclusive_minimum: u128,
    ) -> (result: Result<(), ExclusiveMinimumErrorParams>)
        ensures
            result is Ok <==> *self > exclusive_minimum,
            result matches Err(params) ==> params.exclusive_minimum
                == Number::U128(exclusive_minimum),
    {
        if *self > exclusive_minimum {
            Ok(())
        } else {
            Err(ExclusiveMinimumErrorParams::new(Number::U128(exclusive_minimum)))
        }
    }
}

impl ValidateExclusiveMinimum<usize> for usize {
    fn validate_exclusive_minimum(
        &self,
        exclusive_minimum: usize,
    ) -> (result: Result<(), ExclusiveMinimumErrorParams>)
        ensures
            result is Ok <==> *self > exclusive_minimum,
            result matches Err(params) ==> params.exclusive_minimum
                == Number::Usize(exclusive_minimum),
    {
        if *self > exclusive_minimum {
            Ok(())
        } else {
            Err(ExclusiveMinimumErrorParams::new(Number::Usize(exclusive_minimum)))
        }
    }
}

} // verus!
