//! Display-width measurement for strings.
//!
//! Column widths in the banner are measured in characters: every Unicode
//! scalar value counts as one column.  This matches how the rest of the
//! crate pads and aligns text.  It is a deliberate approximation — a
//! wide CJK glyph or a multi-codepoint icon occupies a different number
//! of terminal cells than it counts here — and is acceptable because the
//! labels and art this tool renders are overwhelmingly ASCII.

use vstd::prelude::*;

verus! {

/// The display width of a string: the number of characters in it.
pub open spec fn spec_width(s: Seq<char>) -> nat {
    s.len()
}

/// Measure the display width of a string (its character count).
pub fn display_width(s: &str) -> (w: usize)
    ensures
        w == spec_width(s@),
{
    s.unicode_len()
}

} // verus!
