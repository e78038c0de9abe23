use crate::error::number::is_multiple;
use crate::error::{MultipleOfErrorParams, Number};
use vstd::prelude::*;

verus! {

/// Multiple-of validation of the number.
///
/// See <https://json-schema.org/understanding-json-schema/reference/numeric.html#multiples>
pub trait ValidateMultipleOf<T> where T: PartialEq + std::ops::Rem<Output = T> {
    fn validate_multiple_of(&self, multiple_of: T) -> Result<(), MultipleOfErrorParams>;
}

impl ValidateMultipleOf<i8> for i8 {
    fn validate_multiple_of(&self, multiple_of: i8) -> (result: Result<(), MultipleOfErrorParams>)
        ensures
            result is Ok <==> is_multiple(*self as int, multiple_of as int),
            result matches Err(params) ==> params.multiple_of == Number::I8(multiple_of),
    {
        if Number::I8(*self).is_multiple_of(&Number::I8(multiple_of)) {
            Ok(())
        } else {
            Err(MultipleOfErrorParams::new(Number::I8(multiple_of)))
        }
    }
}

impl ValidateMultipleOf<i16> for i16 {
    fn validate_multiple_of(&self, multiple_of: i16) -> (result: Result<(), MultipleOfErrorParams>)
        ensures
            result is Ok <==> is_multiple(*self as int, multiple_of as int),
            result matches Err(params) ==> params.multiple_of == Number::I16(multiple_of),
    {
        if Number::I16(*self).is_multiple_of(&Number::I16(multiple_of)) {
            Ok(())
        } else {
            Err(MultipleOfErrorParams::new(Number::I16(multiple_of)))
        }
    }
}

impl ValidateMultipleOf<i32> for i32 {
    fn validate_multiple_of(&self, multiple_of: i32) -> (result: Result<(), MultipleOfErrorParams>)
        ensures
            result is Ok <==> is_multiple(*self as int, multiple_of as int),
            result matches Err(params) ==> params.multiple_of == Number::I32(multiple_of),
    {
        if Number::I32(*self).is_multiple_of(&Number::I32(multiple_of)) {
            Ok(())
        } else {
            Err(MultipleOfErrorParams::new(Number::I32(multiple_of)))
        }
    }
}

impl ValidateMultipleOf<i64> for i64 {
    fn validate_multiple_of(&self, multiple_of: i64) -> (result: Result<(), MultipleOfErrorParams>)
        ensures
            result is Ok <==> is_multiple(*self as int, multiple_of as int),
            result matches Err(params) ==> params.multiple_of == Number::I64(multiple_of),
    {
        if Number::I64(*self).is_multiple_of(&Number::I64(multiple_of)) {
            Ok(())
        } else {
            Err(MultipleOfErrorParams::new(Number::I64(multiple_of)))
        }
    }
}

impl ValidateMultipleOf<i128> for i128 {
    fn validate_multiple_of(&self, multiple_of: i128) -> (result: Result<(), MultipleOfErrorParams>)
        ensures
            result is Ok <==> is_multiple(*self as int, multiple_of as int),
            result matches Err(params) ==> params.multiple_of == Number::I128(multiple_of),
    {
        if Number::I128(*self).is_multiple_of(&Number::I128(multiple_of)) {
            Ok(())
        } else {
            Err(MultipleOfErrorParams::new(Number::I128(multiple_of)))
        }
    }
}

impl ValidateMultipleOf<isize> for isize {
    fn validate_multiple_of(
        &self,
        multiple_of: isize,
    ) -> (result: Result<(), MultipleOfErrorParams>)
        ensures
            result is Ok <==> is_multiple(*self as int, multiple_of as int),
            result matches Err(params) ==> params.multiple_of == Number::Isize(multiple_of),
    {
        if Number::Isize(*self).is_multiple_of(&Number::Isize(multiple_of)) {
            Ok(())
        } else {
            Err(MultipleOfErrorParams::new(Number::Isize(multiple_of)))
        }
    }
}

impl ValidateMultipleOf<u8> for u8 {
    fn validate_multiple_of(&self, multiple_of: u8) -> (result: Result<(), MultipleOfErrorParams>)
        ensures
            result is Ok <==> is_multiple(*self as int, multiple_of as int),
            result matches Err(params) ==> params.multiple_of == Number::U8(multiple_of),
    {
        if Number::U8(*self).is_multiple_of(&Number::U8(multiple_of)) {
            Ok(())
        } else {
            Err(MultipleOfErrorParams::new(Number::U8(multiple_of)))
        }
    }
}

impl ValidateMultipleOf<u16> for u16 {
    fn validate_multiple_of(&self, multiple_of: u16) -> (result: Result<(), MultipleOfErrorParams>)
        ensures
            result is Ok <==> is_multiple(*self as int, multiple_of as int),
            result matches Err(params) ==> params.multiple_of == Number::U16(multiple_of),
    {
        if Number::U16(*self).is_multiple_of(&Number::U16(multiple_of)) {
            Ok(())
        } else {
            Err(MultipleOfErrorParams::new(Number::U16(multiple_of)))
        }
    }
}

impl ValidateMultipleOf<u32> for u32 {
    fn validate_multiple_of(&self, multiple_of: u32) -> (result: Result<(), MultipleOfErrorParams>)
        ensures
            result is Ok <==> is_multiple(*self as int, multiple_of as int),
            result matches Err(params) ==> params.multiple_of == Number::U32(multiple_of),
    {
        if Number::U32(*self).is_multiple_of(&Number::U32(multiple_of)) {
            Ok(())
        } else {
            Err(MultipleOfErrorParams::new(Number::U32(multiple_of)))
        }
    }
}

impl ValidateMultipleOf<u64> for u64 {
    fn validate_multiple_of(&self, multiple_of: u64) -> (result: Result<(), MultipleOfErrorParams>)
        ensures
            result is Ok <==> is_multiple(*self as int, multiple_of as int),
            result matches Err(params) ==> params.multiple_of == Number::U64(multiple_of),
    {
        if Number::U64(*self).is_multiple_of(&Number::U64(multiple_of)) {
            Ok(())
        } else {
            Err(MultipleOfErrorParams::new(Number::U64(multiple_of)))
        }
    }
}

impl ValidateMultipleOf<u128> for u128 {
    fn validate_multiple_of(&self, multiple_of: u128) -> (result: Result<(), MultipleOfErrorParams>)
        ensures
            result is Ok <==> is_multiple(*self as int, multiple_of as int),
            result matches Err(params) ==> params.multiple_of == Number::U128(multiple_of),
    {
        if Number::U128(*self).is_multiple_of(&Number::U128(multiple_of)) {
            Ok(())
        } else {
            Err(MultipleOfErrorParams::new(Number::U128(multiple_of)))
        }
    }
}

impl ValidateMultipleOf<usize> for usize {
    fn validate_multiple_of(
        &self,
        multiple_of: usize,
    ) -> (result: Result<(), MultipleOfErrorParams>)
        ensures
            result is Ok <==> is_multiple(*self as int, multiple_of as int),
            result matches Err(params) ==> params.multiple_of == Number::Usize(multiple_of),
    {
        if Number::Usize(*self).is_multiple_of(&Number::Usize(multiple_of)) {
            Ok(())
        } else {
            Err(MultipleOfErrorParams::new(Number::Usize(multiple_of)))
        }
    }
}

} // verus!
