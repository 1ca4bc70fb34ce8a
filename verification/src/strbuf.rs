//! The one trusted declaration about `std`'s string buffer.

use vstd::prelude::*;

verus! {

/// Relies on `String::push`: std documents that it "appends the given
/// `char` to the end of this `String`", changing nothing else.
pub assume_specification[ String::push ](s: &mut String, c: char)
    ensures
        final(s)@ == old(s)@.push(c),
;

} // verus!
