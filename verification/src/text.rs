use vstd::prelude::*;

verus! {

/// `String::push` of the standard library: the character is added at the end.
pub assume_specification[ String::push ](text: &mut String, c: char)
    ensures
        final(text)@ == old(text)@.push(c),
;

/// `==` on `str` of the standard library: two texts are equal when they hold the same
/// characters in the same order.
pub assume_specification[ <str as PartialEq>::eq ](left: &str, right: &str) -> (same: bool)
    ensures
        same == (left@ == right@),
;

/// Whether two texts hold the same characters.
pub fn str_equal(left: &str, right: &str) -> (same: bool)
    ensures
        same == (left@ == right@),
{
    left.eq(right)
}

} // verus!
