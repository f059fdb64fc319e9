//! Glyph-index mapping for the clock-digit bitmap font.
//!
//! The bitmap asset itself is an external resource; the library only
//! defines which glyph slot of the digit strip each character selects.

use vstd::prelude::*;

verus! {

/// Maps characters onto the glyph slots of the clock-digit font strip:
/// the ten digits in order, the colon at slot 10, and a blank fallback
/// slot for anything else.
pub struct ClockDigitMapping {}

impl ClockDigitMapping {
    /// The glyph slot a character selects.
    pub open spec fn spec_index(c: char) -> int {
        if '0' <= c <= '9' {
            c as int - '0' as int
        } else if c == ':' {
            10
        } else {
            15
        }
    }

    /// Look up the glyph slot of a character.
    pub fn index(&self, c: char) -> (r: usize)
        ensures
            r == Self::spec_index(c),
            r <= 15,
    {
        if c >= '0' && c <= '9' {
            (c as usize) - ('0' as usize)
        } else if c == ':' {
            10
        } else {
            15
        }
    }
}

} // verus!
