//! Appending to text under three ways of holding it: owned, mutably borrowed
//! and handed back, and two mutable borrows side by side.

use vstd::prelude::*;

verus! {

/// `String::push` of the standard library appends one character: afterwards
/// the string holds what it held before, followed by `ch`.
pub assume_specification[ String::push ](s: &mut String, ch: char)
    ensures
        final(s)@ == old(s)@.push(ch),
;

/// Takes a string over, appends `'k'` and hands it back.
pub fn append_krab_1(mut input: String) -> (result: String)
    ensures
        result@ == input@.push('k'),
{
    input.push('k');
    input
}

/// Appends `'k'` and then `'x'` to a borrowed string and hands the borrow
/// back.
pub fn append_krab_11(input: &mut String) -> (result: &mut String)
    ensures
        (*result)@ == old(input)@.push('k').push('x'),
        *final(input) == *final(result),
{
    input.push('k');
    input.push('x');
    input
}

/// Appends `'k'` to each of two distinct borrowed strings.
pub fn append_krab_2(a: &mut String, b: &mut String)
    ensures
        final(a)@ == old(a)@.push('k'),
        final(b)@ == old(b)@.push('k'),
{
    a.push('k');
    b.push('k');
}

} // verus!
