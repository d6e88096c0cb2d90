//! The layout planner: pure geometry for one banner render.
//!
//! From the art block's metrics, the data lines' metrics and the
//! configuration, the planner computes how many rows the banner has,
//! how far down the shorter column starts (vertical centering), and how
//! wide the art and label columns are.  Widths saturate at
//! `usize::MAX` instead of wrapping or panicking: an overflowed width
//! only degrades the picture, never the process.

use vstd::prelude::*;

use crate::config::Config;

verus! {

/// `a + b`, clamped to `usize::MAX`.
pub open spec fn sat_add(a: nat, b: nat) -> nat {
    if a + b > usize::MAX {
        usize::MAX as nat
    } else {
        a + b
    }
}

/// Add two widths, saturating at the maximum the output type holds.
pub fn saturating_add(a: usize, b: usize) -> (r: usize)
    ensures
        r == sat_add(a as nat, b as nat),
{
    if a > usize::MAX - b {
        usize::MAX
    } else {
        a + b
    }
}

/// The number of banner rows: enough for the taller column.
pub open spec fn spec_total_rows(ascii_count: nat, data_count: nat) -> nat {
    if ascii_count > data_count {
        ascii_count
    } else {
        data_count
    }
}

/// How far down a column of `shorter` rows starts when shown beside a
/// column of `taller` rows: half the leftover rows (floor), and zero
/// when it is not actually shorter.
pub open spec fn spec_shift(taller: nat, shorter: nat) -> nat {
    if taller > shorter {
        ((taller - shorter) / 2) as nat
    } else {
        0
    }
}

/// The width reserved for the label/icon column: the longest label (or
/// one column, when icons replace labels) plus the configured padding.
pub open spec fn spec_label_col(use_icons: bool, max_label_width: nat, padding: nat) -> nat {
    if use_icons {
        sat_add(1, padding)
    } else {
        sat_add(max_label_width, padding)
    }
}

/// The width reserved for the art column: the widest art line plus the
/// configured padding, or nothing at all when there is no art.
pub open spec fn spec_ascii_col(ascii_count: nat, max_width: nat, padding: nat) -> nat {
    if ascii_count > 0 {
        sat_add(max_width, padding)
    } else {
        0
    }
}

/// The precomputed geometry of one banner render.
#[derive(Clone, Copy, PartialEq, Eq, Structural, Debug)]
pub struct RenderPlan {
    /// How many rows the banner has.
    pub total_rows: usize,
    /// The first row at which data lines appear.
    pub data_row_offset: usize,
    /// The first row at which art lines appear.
    pub ascii_row_offset: usize,
    /// Display columns reserved for the label/icon column.
    pub label_column_width: usize,
    /// Display columns reserved for the art column.
    pub ascii_column_width: usize,
}

/// The plan the planner produces for the given metrics, field by field.
pub open spec fn plan_matches(
    p: RenderPlan,
    ascii_line_count: nat,
    ascii_max_width: nat,
    data_count: nat,
    data_max_label_width: nat,
    use_icons: bool,
    label_column_padding: nat,
    ascii_column_padding: nat,
) -> bool {
    &&& p.total_rows == spec_total_rows(ascii_line_count, data_count)
    &&& p.data_row_offset == spec_shift(ascii_line_count, data_count)
    &&& p.ascii_row_offset == spec_shift(data_count, ascii_line_count)
    &&& p.label_column_width == spec_label_col(
        use_icons,
        data_max_label_width,
        label_column_padding,
    )
    &&& p.ascii_column_width == spec_ascii_col(
        ascii_line_count,
        ascii_max_width,
        ascii_column_padding,
    )
}

/// Compute the geometry of a banner: row count, vertical centering
/// offsets and column widths.  Total: every non-negative input yields a
/// plan; overflowed widths saturate.
pub fn plan(
    ascii_line_count: usize,
    ascii_max_width: usize,
    data_count: usize,
    data_max_label_width: usize,
    conf: &Config,
) -> (p: RenderPlan)
    ensures
        plan_matches(
            p,
            ascii_line_count as nat,
            ascii_max_width as nat,
            data_count as nat,
            data_max_label_width as nat,
            conf.use_icons,
            conf.align_spaces as nat,
            conf.ascii.align_spaces as nat,
        ),
{
    let total_rows = if ascii_line_count > data_count {
        ascii_line_count
    } else {
        data_count
    };
    let data_row_offset = if ascii_line_count > data_count {
        (ascii_line_count - data_count) / 2
    } else {
        0
    };
    let ascii_row_offset = if data_count > ascii_line_count {
        (data_count - ascii_line_count) / 2
    } else {
        0
    };
    let label_base = if conf.use_icons {
        1
    } else {
        data_max_label_width
    };
    let label_column_width = saturating_add(label_base, conf.align_spaces);
    let ascii_column_width = if ascii_line_count > 0 {
        saturating_add(ascii_max_width, conf.ascii.align_spaces)
    } else {
        0
    };
    RenderPlan { total_rows, data_row_offset, ascii_row_offset, label_column_width, ascii_column_width }
}

/// Every plan the planner produces reserves an art column at least as
/// wide as the widest art line (so padding an art line to the column
/// width never truncates), as long as any art is present.
pub proof fn lemma_plan_covers_art(
    p: RenderPlan,
    ascii_line_count: nat,
    ascii_max_width: nat,
    data_count: nat,
    data_max_label_width: nat,
    use_icons: bool,
    label_column_padding: nat,
    ascii_column_padding: nat,
)
    requires
        ascii_max_width <= usize::MAX,
        ascii_line_count > 0,
        plan_matches(
            p,
            ascii_line_count,
            ascii_max_width,
            data_count,
            data_max_label_width,
            use_icons,
            label_column_padding,
            ascii_column_padding,
        ),
    ensures
        ascii_max_width <= p.ascii_column_width,
{
}

/// Centering is symmetric: whichever column is shorter is the one that
/// is shifted, by half the leftover rows; the taller column never
/// shifts, and columns of equal height do not shift at all.  At most
/// one of the two offsets can ever be nonzero (when the height
/// difference is a single row, its half floors to zero and both
/// offsets are zero).
pub proof fn lemma_centering_symmetry(ascii_count: nat, data_count: nat)
    ensures
        spec_shift(ascii_count, data_count) == 0 || spec_shift(data_count, ascii_count) == 0,
        ascii_count == data_count ==> spec_shift(ascii_count, data_count) == 0 && spec_shift(
            data_count,
            ascii_count,
        ) == 0,
        ascii_count > data_count ==> spec_shift(data_count, ascii_count) == 0 && spec_shift(
            ascii_count,
            data_count,
        ) == (ascii_count - data_count) / 2,
        data_count > ascii_count ==> spec_shift(ascii_count, data_count) == 0 && spec_shift(
            data_count,
            ascii_count,
        ) == (data_count - ascii_count) / 2,
{
}

/// Column widths dominate their padding: the label column is at least
/// as wide as the configured label padding, and the art column is at
/// least as wide as the art padding whenever any art is present (and
/// exactly zero when none is).
pub proof fn lemma_column_width_monotonic(
    ascii_count: nat,
    ascii_max_width: nat,
    use_icons: bool,
    max_label_width: nat,
    label_padding: nat,
    ascii_padding: nat,
)
    requires
        label_padding <= usize::MAX,
        ascii_padding <= usize::MAX,
    ensures
        spec_label_col(use_icons, max_label_width, label_padding) >= label_padding,
        ascii_count > 0 ==> spec_ascii_col(ascii_count, ascii_max_width, ascii_padding)
            >= ascii_padding,
        ascii_count == 0 ==> spec_ascii_col(ascii_count, ascii_max_width, ascii_padding) == 0,
{
}

} // verus!
