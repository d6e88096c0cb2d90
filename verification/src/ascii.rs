//! The optional ASCII art block rendered beside the data column.

use vstd::prelude::*;

use crate::text::{spec_lines, spec_trim_end, split_lines, trim_end_ws};
use crate::width::display_width;

verus! {

/// The widest line of the block, measured in display columns
/// (characters).  An empty block is zero wide.
pub open spec fn spec_max_width(lines: Seq<Seq<char>>) -> nat
    decreases lines.len(),
{
    if lines.len() == 0 {
        0
    } else if lines.last().len() > spec_max_width(lines.drop_last()) {
        lines.last().len()
    } else {
        spec_max_width(lines.drop_last())
    }
}

/// No line is wider than the block's maximum width.
pub proof fn lemma_max_width_bounds(lines: Seq<Seq<char>>)
    ensures
        forall|i: int| 0 <= i < lines.len() ==> #[trigger] lines[i].len() <= spec_max_width(lines),
    decreases lines.len(),
{
    if lines.len() > 0 {
        lemma_max_width_bounds(lines.drop_last());
        assert(spec_max_width(lines) >= spec_max_width(lines.drop_last()));
        assert forall|i: int| 0 <= i < lines.len() implies #[trigger] lines[i].len()
            <= spec_max_width(lines) by {
            if i < lines.len() - 1 {
                assert(lines[i] == lines.drop_last()[i]);
                assert(lines.drop_last()[i].len() <= spec_max_width(lines.drop_last()));
            } else {
                assert(lines[i] == lines.last());
            }
        }
    }
}

/// A loaded block of ASCII art: its lines, without trailing newline
/// characters.  An absent block is simply a block with no lines, so no
/// downstream code needs a special "no art" branch.
pub struct AsciiBlock {
    pub lines: Vec<String>,
}

impl AsciiBlock {
    /// Build a block from raw loaded text.  Trailing whitespace of the
    /// text is trimmed first, then the text is split into lines.
    pub fn from_text(text: &str) -> (r: AsciiBlock)
        ensures
            r.lines.deep_view() == spec_lines(spec_trim_end(text@)),
    {
        let trimmed = trim_end_ws(text);
        AsciiBlock { lines: split_lines(trimmed) }
    }

    /// A block with no art at all.
    pub fn empty() -> (r: AsciiBlock)
        ensures
            r.lines@.len() == 0,
            r.lines.deep_view() == Seq::<Seq<char>>::empty(),
    {
        let r = AsciiBlock { lines: Vec::new() };
        proof {
            assert(r.lines.deep_view() =~= Seq::<Seq<char>>::empty());
        }
        r
    }

    /// How many rows of art there are.
    pub fn line_count(&self) -> (r: usize)
        ensures
            r == self.lines@.len(),
    {
        self.lines.len()
    }

    /// The display width of the widest art line.
    pub fn max_width(&self) -> (r: usize)
        ensures
            r == spec_max_width(self.lines.deep_view()),
    {
        let ghost deep = self.lines.deep_view();
        let mut m: usize = 0;
        let mut i: usize = 0;
        proof {
            assert(deep.take(0) =~= Seq::<Seq<char>>::empty());
        }
        while i < self.lines.len()
            invariant
                deep == self.lines.deep_view(),
                deep.len() == self.lines@.len(),
                forall|j: int| 0 <= j < deep.len() ==> deep[j] == self.lines@[j]@,
                i <= self.lines@.len(),
                m == spec_max_width(deep.take(i as int)),
            decreases self.lines@.len() - i,
        {
            let w = display_width(self.lines[i].as_str());
            if w > m {
                m = w;
            }
            proof {
                assert(deep.take(i + 1).drop_last() =~= deep.take(i as int));
                assert(deep.take(i + 1).last() == deep[i as int]);
            }
            i = i + 1;
        }
        proof {
            assert(deep.take(deep.len() as int) =~= deep);
        }
        m
    }
}

} // verus!
