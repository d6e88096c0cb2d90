//! The compositor: execute a [`RenderPlan`] into a stream of styled
//! segments.
//!
//! A banner is a run of blank lines, then `total_rows` rows, then
//! another run of blank lines.  Each row is a short list of segments:
//! the global left offset (plain spaces), the art column (an art line
//! padded to the column width, or plain filler spaces), and — when a
//! data line lands on this row — the styled label/icon padded to the
//! label column width, followed by the unstyled value text.  The
//! terminal backend writes the segments of one row as a unit, mapping
//! `Ascii` and `Label` segments to the two configured styles and
//! everything else to unstyled text.

use vstd::prelude::*;

use crate::ascii::{lemma_max_width_bounds, spec_max_width, AsciiBlock};
use crate::config::Config;
use crate::fetch::{FetchData, FetchDataView};
use crate::layout::{plan, plan_matches, RenderPlan};
use crate::text::{pad_right, spaces, spec_lines, spec_pad, spec_spaces, spec_trim_end};
use crate::width::display_width;

verus! {

/// Which of the two configured styles a segment carries: art style,
/// label style, or none at all.
#[derive(Clone, Copy, PartialEq, Eq, Structural, Debug)]
pub enum SegKind {
    /// Unstyled text: offsets, filler, and value text.
    Plain,
    /// Text rendered in the ASCII art style.
    Ascii,
    /// Text rendered in the label style.
    Label,
}

/// One run of output text that is written with a single style.
pub enum Seg {
    /// Unstyled text.
    Plain(String),
    /// Text in the art style.
    Ascii(String),
    /// Text in the label style.
    Label(String),
}

/// The mathematical shadow of a segment: its style kind and its text.
pub struct GSeg {
    pub kind: SegKind,
    pub text: Seq<char>,
}

impl View for Seg {
    type V = GSeg;

    open spec fn view(&self) -> GSeg {
        match self {
            Seg::Plain(s) => GSeg { kind: SegKind::Plain, text: s@ },
            Seg::Ascii(s) => GSeg { kind: SegKind::Ascii, text: s@ },
            Seg::Label(s) => GSeg { kind: SegKind::Label, text: s@ },
        }
    }
}

impl DeepView for Seg {
    type V = GSeg;

    open spec fn deep_view(&self) -> GSeg {
        self@
    }
}

impl Seg {
    /// The segment's text, independent of its style.
    pub fn text(&self) -> (r: &str)
        ensures
            r@ == self@.text,
    {
        match self {
            Seg::Plain(s) => s.as_str(),
            Seg::Ascii(s) => s.as_str(),
            Seg::Label(s) => s.as_str(),
        }
    }
}

/// Does row `i` carry an art line?
pub open spec fn row_has_ascii(i: int, ascii_count: nat, p: RenderPlan) -> bool {
    i >= p.ascii_row_offset && i - p.ascii_row_offset < ascii_count
}

/// Does row `i` carry a data line?
pub open spec fn row_has_data(i: int, data_count: nat, p: RenderPlan) -> bool {
    i >= p.data_row_offset && i - p.data_row_offset < data_count
}

/// The segments of row `i` of the banner.
pub open spec fn spec_row(
    i: int,
    ascii_lines: Seq<Seq<char>>,
    p: RenderPlan,
    data: Seq<FetchDataView>,
    use_icons: bool,
    offset_x: nat,
) -> Seq<GSeg> {
    let margin = GSeg { kind: SegKind::Plain, text: spec_spaces(offset_x) };
    let art = if row_has_ascii(i, ascii_lines.len(), p) {
        GSeg {
            kind: SegKind::Ascii,
            text: spec_pad(ascii_lines[i - p.ascii_row_offset], p.ascii_column_width as nat),
        }
    } else {
        GSeg { kind: SegKind::Plain, text: spec_spaces(p.ascii_column_width as nat) }
    };
    if row_has_data(i, data.len(), p) {
        let d = data[i - p.data_row_offset];
        let labeltext = if use_icons {
            d.icon
        } else {
            d.label
        };
        seq![
            margin,
            art,
            GSeg { kind: SegKind::Label, text: spec_pad(labeltext, p.label_column_width as nat) },
            GSeg { kind: SegKind::Plain, text: d.text },
        ]
    } else {
        seq![margin, art]
    }
}

/// All rows of the banner.
pub open spec fn spec_rows(
    ascii_lines: Seq<Seq<char>>,
    p: RenderPlan,
    data: Seq<FetchDataView>,
    use_icons: bool,
    offset_x: nat,
) -> Seq<Seq<GSeg>> {
    Seq::new(p.total_rows as nat, |i: int| spec_row(i, ascii_lines, p, data, use_icons, offset_x))
}

/// A fully composed banner, ready to be written: blank lines above,
/// the rows, blank lines below, and the plan the rows were built from.
pub struct RenderOutput {
    /// The geometry the rows follow.
    pub plan: RenderPlan,
    /// Blank lines written before the first row (the y offset).
    pub blank_lines_before: usize,
    /// The banner rows; each is written as its segments in order,
    /// followed by one newline.
    pub rows: Vec<Vec<Seg>>,
    /// Blank lines written after the last row.
    pub blank_lines_after: usize,
}

/// Execute a plan: compose every banner row as styled segments.
pub fn render(
    p: &RenderPlan,
    ascii: &AsciiBlock,
    data: &Vec<FetchData>,
    conf: &Config,
) -> (rows: Vec<Vec<Seg>>)
    ensures
        rows.deep_view() == spec_rows(
            ascii.lines.deep_view(),
            *p,
            data.deep_view(),
            conf.use_icons,
            conf.offset.0 as nat,
        ),
{
    let ghost art_deep = ascii.lines.deep_view();
    let ghost data_deep = data.deep_view();
    let mut rows: Vec<Vec<Seg>> = Vec::new();
    let mut idx: usize = 0;
    while idx < p.total_rows
        invariant
            art_deep == ascii.lines.deep_view(),
            data_deep == data.deep_view(),
            art_deep.len() == ascii.lines@.len(),
            data_deep.len() == data@.len(),
            forall|j: int| 0 <= j < art_deep.len() ==> art_deep[j] == ascii.lines@[j]@,
            forall|j: int| 0 <= j < data_deep.len() ==> data_deep[j] == data@[j]@,
            idx <= p.total_rows,
            rows.deep_view() == Seq::new(
                idx as nat,
                |i: int| spec_row(i, art_deep, *p, data_deep, conf.use_icons, conf.offset.0 as nat),
            ),
        decreases p.total_rows - idx,
    {
        let mut row: Vec<Seg> = Vec::new();
        row.push(Seg::Plain(spaces(conf.offset.0)));
        if idx >= p.ascii_row_offset && idx - p.ascii_row_offset < ascii.lines.len() {
            let line = &ascii.lines[idx - p.ascii_row_offset];
            row.push(Seg::Ascii(pad_right(line.as_str(), p.ascii_column_width)));
        } else {
            row.push(Seg::Plain(spaces(p.ascii_column_width)));
        }
        if idx >= p.data_row_offset && idx - p.data_row_offset < data.len() {
            let d = &data[idx - p.data_row_offset];
            let labeltext = if conf.use_icons {
                &d.icon
            } else {
                &d.label
            };
            row.push(Seg::Label(pad_right(labeltext.as_str(), p.label_column_width)));
            row.push(Seg::Plain(d.text.clone()));
        }
        proof {
            assert(row.deep_view() =~= spec_row(
                idx as int,
                art_deep,
                *p,
                data_deep,
                conf.use_icons,
                conf.offset.0 as nat,
            ));
        }
        let ghost old_vec = rows@;
        let ghost old_deep = rows.deep_view();
        rows.push(row);
        proof {
            assert(rows@ == old_vec.push(row));
            assert(old_deep.len() == idx);
            assert(old_vec.len() == old_deep.len());
            assert(rows@.len() == idx + 1);
            assert forall|i: int| 0 <= i < rows@.len() implies rows.deep_view()[i] == spec_row(
                i,
                art_deep,
                *p,
                data_deep,
                conf.use_icons,
                conf.offset.0 as nat,
            ) by {
                if i < idx {
                    assert(rows@[i] == old_vec[i]);
                    assert(old_deep[i] == rows@[i].deep_view());
                } else {
                    assert(rows@[i] == row);
                }
            }
            assert(rows.deep_view() =~= Seq::new(
                (idx + 1) as nat,
                |i: int| spec_row(i, art_deep, *p, data_deep, conf.use_icons, conf.offset.0 as nat),
            ));
        }
        idx = idx + 1;
    }
    rows
}

/// The display width of the longest label among the data lines.
pub fn max_label_width(data: &Vec<FetchData>) -> (r: usize)
    ensures
        r == spec_max_width(
            data.deep_view().map_values(|d: FetchDataView| d.label),
        ),
{
    let ghost labels = data.deep_view().map_values(|d: FetchDataView| d.label);
    let mut m: usize = 0;
    let mut i: usize = 0;
    proof {
        assert(labels.take(0) =~= Seq::<Seq<char>>::empty());
    }
    while i < data.len()
        invariant
            labels == data.deep_view().map_values(|d: FetchDataView| d.label),
            labels.len() == data@.len(),
            forall|j: int| 0 <= j < labels.len() ==> labels[j] == data@[j]@.label,
            i <= data@.len(),
            m == spec_max_width(labels.take(i as int)),
        decreases data@.len() - i,
    {
        let w = display_width(data[i].label.as_str());
        if w > m {
            m = w;
        }
        proof {
            assert(labels.take(i + 1).drop_last() =~= labels.take(i as int));
            assert(labels.take(i + 1).last() == labels[i as int]);
        }
        i = i + 1;
    }
    proof {
        assert(labels.take(labels.len() as int) =~= labels);
    }
    m
}

/// Compose a whole banner from raw art text, the fetched data lines
/// and the configuration: build the art block, plan the geometry, and
/// render every row.
pub fn render_banner(
    ascii_text: Option<&str>,
    data: &Vec<FetchData>,
    conf: &Config,
) -> (out: RenderOutput)
    ensures
        ({
            let art = match ascii_text {
                Some(t) => spec_lines(spec_trim_end(t@)),
                None => Seq::<Seq<char>>::empty(),
            };
            &&& plan_matches(
                out.plan,
                art.len(),
                spec_max_width(art),
                data.deep_view().len(),
                spec_max_width(data.deep_view().map_values(|d: FetchDataView| d.label)),
                conf.use_icons,
                conf.align_spaces as nat,
                conf.ascii.align_spaces as nat,
            )
            &&& out.rows.deep_view() == spec_rows(
                art,
                out.plan,
                data.deep_view(),
                conf.use_icons,
                conf.offset.0 as nat,
            )
            &&& out.blank_lines_before == conf.offset.1
            &&& out.blank_lines_after == conf.padding_lines
        }),
{
    let ascii = match ascii_text {
        Some(t) => AsciiBlock::from_text(t),
        None => AsciiBlock::empty(),
    };
    let label_w = max_label_width(data);
    let p = plan(ascii.line_count(), ascii.max_width(), data.len(), label_w, conf);
    let rows = render(&p, &ascii, data, conf);
    RenderOutput {
        plan: p,
        blank_lines_before: conf.offset.1,
        rows,
        blank_lines_after: conf.padding_lines,
    }
}

/// The text of a whole row, styles forgotten: the segment texts in
/// order.
pub open spec fn spec_row_text(row: Seq<GSeg>) -> Seq<char>
    decreases row.len(),
{
    if row.len() == 0 {
        Seq::empty()
    } else {
        spec_row_text(row.drop_last()) + row.last().text
    }
}

/// Flatten one row to its unstyled text.
pub fn row_text(row: &Vec<Seg>) -> (r: String)
    ensures
        r@ == spec_row_text(row.deep_view()),
{
    let ghost deep = row.deep_view();
    let mut r = String::new();
    let mut i: usize = 0;
    proof {
        assert(deep.take(0) =~= Seq::<GSeg>::empty());
        assert(r@ =~= spec_row_text(deep.take(0)));
    }
    while i < row.len()
        invariant
            deep == row.deep_view(),
            deep.len() == row@.len(),
            forall|j: int| 0 <= j < deep.len() ==> deep[j] == row@[j]@,
            i <= row@.len(),
            r@ == spec_row_text(deep.take(i as int)),
        decreases row@.len() - i,
    {
        r.append(row[i].text());
        proof {
            assert(deep.take(i + 1).drop_last() =~= deep.take(i as int));
            assert(deep.take(i + 1).last() == deep[i as int]);
        }
        i = i + 1;
    }
    proof {
        assert(deep.take(deep.len() as int) =~= deep);
    }
    r
}

/// Alignment: in every row that carries a data line, the label starts
/// at the same display column — the global x offset plus the art
/// column width — whether or not the row also carries an art line.
pub proof fn lemma_alignment(
    i: int,
    ascii_lines: Seq<Seq<char>>,
    p: RenderPlan,
    data: Seq<FetchDataView>,
    use_icons: bool,
    offset_x: nat,
)
    requires
        spec_max_width(ascii_lines) <= p.ascii_column_width,
        0 <= i < p.total_rows,
        row_has_data(i, data.len(), p),
    ensures
        ({
            let row = spec_rows(ascii_lines, p, data, use_icons, offset_x)[i];
            &&& row.len() == 4
            &&& row[2].kind == SegKind::Label
            &&& row[0].text.len() + row[1].text.len() == offset_x + p.ascii_column_width
        }),
{
    lemma_max_width_bounds(ascii_lines);
}

/// No styling leaks: in every rendered row the only styled segments
/// are the art segment (second position, and only when an art line is
/// present on that row) and the label segment (third position, only
/// when a data line is present); the margin, the filler and the value
/// text are plain.
pub proof fn lemma_no_style_leakage(
    i: int,
    j: int,
    ascii_lines: Seq<Seq<char>>,
    p: RenderPlan,
    data: Seq<FetchDataView>,
    use_icons: bool,
    offset_x: nat,
)
    requires
        0 <= i < p.total_rows,
        0 <= j < spec_rows(ascii_lines, p, data, use_icons, offset_x)[i].len(),
    ensures
        ({
            let row = spec_rows(ascii_lines, p, data, use_icons, offset_x)[i];
            &&& row[0].kind == SegKind::Plain
            &&& (row[j].kind == SegKind::Ascii ==> j == 1 && row_has_ascii(
                i,
                ascii_lines.len(),
                p,
            ))
            &&& (row[j].kind == SegKind::Label ==> j == 2 && row_has_data(i, data.len(), p))
            &&& (row_has_data(i, data.len(), p) ==> row.len() == 4 && row[3].kind == SegKind::Plain
                && row[3].text == data[i - p.data_row_offset].text)
            &&& (!row_has_ascii(i, ascii_lines.len(), p) ==> row[1].kind == SegKind::Plain)
        }),
{
}

} // verus!
