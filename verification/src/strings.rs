//! Contracts for the `String` methods the crate relies on.

use vstd::prelude::*;

verus! {

/// `String::push`: the character is added at the end, the rest is unchanged.
pub assume_specification[ String::push ](s: &mut String, c: char)
    ensures
        final(s)@ == old(s)@.push(c),
;

/// `String::clear`: the string is empty afterwards.
pub assume_specification[ String::clear ](s: &mut String)
    ensures
        final(s)@ == Seq::<char>::empty(),
;

} // verus!
