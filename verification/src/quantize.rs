//! Quantizing a continuous bar height into per-row terminal glyphs.
//!
//! A column of the visualization is `cell_rows` text rows tall; each row can
//! show up to four discrete sub-row units of fill. A bar of `height` units
//! fills rows from the bottom up: row `r` shows whatever is left of `height`
//! after the `r` rows below it consumed four units each, clamped to `[0, 4]`.

use vstd::prelude::*;

verus! {

/// Which of the two glyph tables a column is drawn with: a presentation
/// choice, not a functional one.
#[derive(Clone, Copy, PartialEq, Eq, Structural)]
pub enum GlyphStyle {
    /// Braille dot-matrix symbols.
    Dots,
    /// Partial-block symbols.
    Block,
}

/// Units of fill shown by row `row` (row 0 is the bottom row) of a column
/// holding `height` units in total.
pub open spec fn row_units(height: u8, row: int) -> int {
    if height - 4 * row <= 0 {
        0
    } else if height - 4 * row >= 4 {
        4
    } else {
        height - 4 * row
    }
}

/// Total units shown by rows `0 .. n`.
pub open spec fn units_sum(height: u8, n: int) -> int
    decreases n,
{
    if n <= 0 {
        0
    } else {
        units_sum(height, n - 1) + row_units(height, n - 1)
    }
}

/// Glyph for a row showing `units` of fill, per style. The zero-unit entry is
/// each table's invisible filler; renderers skip such rows instead of writing
/// it, so background decoration shows through.
pub open spec fn glyph_for(style: GlyphStyle, units: int) -> char {
    match style {
        GlyphStyle::Dots => if units == 1 {
            '\u{2801}'
        } else if units == 2 {
            '\u{2803}'
        } else if units == 3 {
            '\u{2807}'
        } else if units == 4 {
            '\u{280F}'
        } else {
            '\u{2800}'
        },
        GlyphStyle::Block => if units == 1 {
            '\u{2582}'
        } else if units == 2 {
            '\u{2584}'
        } else if units == 3 {
            '\u{2586}'
        } else if units == 4 {
            '\u{2588}'
        } else {
            '\u{200C}'
        },
    }
}

/// The rendered column for rows `0 .. n`: one `(row, glyph)` pair per row
/// with at least one unit of fill, bottom row first; empty rows are skipped.
pub open spec fn spec_column(height: u8, n: int, style: GlyphStyle) -> Seq<(u16, char)>
    decreases n,
{
    if n <= 0 {
        Seq::empty()
    } else {
        spec_column(height, n - 1, style) + if row_units(height, n - 1) > 0 {
            seq![((n - 1) as u16, glyph_for(style, row_units(height, n - 1)))]
        } else {
            Seq::<(u16, char)>::empty()
        }
    }
}

/// Units of fill for one row, as executable code.
pub fn row_fill(height: u8, row: u16) -> (u: u8)
    ensures
        u as int == row_units(height, row as int),
{
    let consumed: u32 = 4 * (row as u32);
    if (height as u32) <= consumed {
        0
    } else {
        let avail: u32 = height as u32 - consumed;
        if avail >= 4 {
            4
        } else {
            avail as u8
        }
    }
}

/// Glyph lookup, as executable code.
pub fn glyph(style: GlyphStyle, units: u8) -> (c: char)
    ensures
        c == glyph_for(style, units as int),
{
    match style {
        GlyphStyle::Dots => match units {
            1 => '\u{2801}',
            2 => '\u{2803}',
            3 => '\u{2807}',
            4 => '\u{280F}',
            _ => '\u{2800}',
        },
        GlyphStyle::Block => match units {
            1 => '\u{2582}',
            2 => '\u{2584}',
            3 => '\u{2586}',
            4 => '\u{2588}',
            _ => '\u{200C}',
        },
    }
}

/// Quantize one bar of `height` fill units into glyph cells for a column of
/// `cell_rows` text rows; pairs come bottom row first, rows with no fill are
/// left out. Total and pure: any height and any row count are accepted.
pub fn render_column(height: u8, cell_rows: u16, style: GlyphStyle) -> (r: Vec<(u16, char)>)
    ensures
        r@ == spec_column(height, cell_rows as int, style),
        forall|j: int| 0 <= j < r@.len() ==> (#[trigger] r@[j]).0 < cell_rows,
{
    let mut r: Vec<(u16, char)> = Vec::new();
    let mut row: u16 = 0;
    while row < cell_rows
        invariant
            row <= cell_rows,
            r@ == spec_column(height, row as int, style),
        decreases cell_rows - row,
    {
        let u = row_fill(height, row);
        if u > 0 {
            let c = glyph(style, u);
            r.push((row, c));
        }
        proof {
            assert(r@ =~= spec_column(height, row as int + 1, style));
        }
        row = row + 1;
    }
    proof {
        lemma_column_cells(height, cell_rows as int, style);
    }
    r
}

/// Cells written for one bar drawn at screen column `x` inside an area whose
/// top row is `top` and whose bottom row is `top + height - 1`: the bar's
/// quantized rows for rows `0 .. n`, each row `r` mapped to screen row
/// `top + height - 1 - r`, bottom row first; rows with no fill are skipped.
pub open spec fn spec_bar_cells(
    bar: u8,
    x: u16,
    top: u16,
    height: u16,
    style: GlyphStyle,
    n: int,
) -> Seq<(u16, u16, char)>
    decreases n,
{
    if n <= 0 {
        Seq::empty()
    } else {
        spec_bar_cells(bar, x, top, height, style, n - 1) + if row_units(bar, n - 1) > 0 {
            seq![(x, (top + height - n) as u16, glyph_for(style, row_units(bar, n - 1)))]
        } else {
            Seq::<(u16, u16, char)>::empty()
        }
    }
}

/// Cells written for the first `n` bars, one column per bar from `left` on.
pub open spec fn spec_cells_up_to(
    data: Seq<u8>,
    left: u16,
    top: u16,
    height: u16,
    style: GlyphStyle,
    n: int,
) -> Seq<(u16, u16, char)>
    decreases n,
{
    if n <= 0 {
        Seq::empty()
    } else {
        spec_cells_up_to(data, left, top, height, style, n - 1) + spec_bar_cells(
            data[n - 1],
            (left + n - 1) as u16,
            top,
            height,
            style,
            height as int,
        )
    }
}

/// All cells a bar widget writes inside its area: one column per bar, at
/// most `width` bars shown.
pub open spec fn spec_widget_cells(
    data: Seq<u8>,
    left: u16,
    top: u16,
    width: u16,
    height: u16,
    style: GlyphStyle,
) -> Seq<(u16, u16, char)> {
    spec_cells_up_to(data, left, top, height, style, vstd::math::min(data.len() as int, width as int))
}

/// Compute every `(column, row, glyph)` cell a bar widget writes inside the
/// area starting at `(left, top)`, `width` columns wide and `height` text
/// rows tall: one quantized column per bar, bottom-aligned, at most `width`
/// bars. Pure: the caller owns putting the cells on a screen.
pub fn render_cells(
    data: &Vec<u8>,
    left: u16,
    top: u16,
    width: u16,
    height: u16,
    style: GlyphStyle,
) -> (r: Vec<(u16, u16, char)>)
    requires
        left + width <= u16::MAX,
        top + height <= u16::MAX,
    ensures
        r@ == spec_widget_cells(data@, left, top, width, height, style),
        forall|j: int|
            0 <= j < r@.len() ==> {
                let cell = #[trigger] r@[j];
                &&& left <= cell.0 < left + vstd::math::min(data@.len() as int, width as int)
                &&& top <= cell.1 < top + height
            },
{
    let n_bars: usize = if data.len() < width as usize {
        data.len()
    } else {
        width as usize
    };
    let mut r: Vec<(u16, u16, char)> = Vec::new();
    let mut i: usize = 0;
    while i < n_bars
        invariant
            n_bars as int == vstd::math::min(data@.len() as int, width as int),
            i <= n_bars,
            left + width <= u16::MAX,
            top + height <= u16::MAX,
            r@ == spec_cells_up_to(data@, left, top, height, style, i as int),
        decreases n_bars - i,
    {
        let x: u16 = left + (i as u16);
        let bar: u8 = data[i];
        let mut row: u16 = 0;
        while row < height
            invariant
                n_bars as int == vstd::math::min(data@.len() as int, width as int),
                i < n_bars,
                row <= height,
                left + width <= u16::MAX,
                top + height <= u16::MAX,
                x == left + i,
                bar == data@[i as int],
                r@ == spec_cells_up_to(data@, left, top, height, style, i as int)
                    + spec_bar_cells(bar, x, top, height, style, row as int),
            decreases height - row,
        {
            let u = row_fill(bar, row);
            if u > 0 {
                let y: u16 = top + height - 1 - row;
                let c = glyph(style, u);
                r.push((x, y, c));
            }
            proof {
                assert(r@ =~= spec_cells_up_to(data@, left, top, height, style, i as int)
                    + spec_bar_cells(bar, x, top, height, style, row as int + 1));
            }
            row = row + 1;
        }
        i = i + 1;
        proof {
            assert(r@ =~= spec_cells_up_to(data@, left, top, height, style, i as int));
        }
    }
    proof {
        lemma_cells_in_area(data@, left, top, height, style, n_bars as int);
    }
    r
}

/// Summed over all rows, a column of `height` units shows exactly
/// `min(height, 4 * n)` units: quantization loses nothing below the
/// representable maximum of four units per row.
pub proof fn lemma_units_sum(height: u8, n: int)
    requires
        0 <= n,
    ensures
        units_sum(height, n) == vstd::math::min(height as int, 4 * n),
    decreases n,
{
    if n > 0 {
        lemma_units_sum(height, n - 1);
    }
}

/// Fill is monotone from bottom to top: a row never shows more units than
/// the row below it.
pub proof fn lemma_fill_monotone(height: u8, row: int)
    requires
        0 <= row,
    ensures
        row_units(height, row + 1) <= row_units(height, row),
{
}

/// A height of zero renders no glyph at all.
pub proof fn lemma_zero_height_empty(n: int, style: GlyphStyle)
    requires
        0 <= n,
    ensures
        spec_column(0, n, style) == Seq::<(u16, char)>::empty(),
    decreases n,
{
    if n > 0 {
        lemma_zero_height_empty(n - 1, style);
        assert(spec_column(0, n, style) =~= Seq::<(u16, char)>::empty());
    }
}

/// Every rendered cell of a column names a row below `n` and carries the
/// glyph of that row's (positive) unit count.
pub proof fn lemma_column_cells(height: u8, n: int, style: GlyphStyle)
    requires
        0 <= n <= u16::MAX,
    ensures
        forall|j: int|
            0 <= j < spec_column(height, n, style).len() ==> {
                let cell = #[trigger] spec_column(height, n, style)[j];
                &&& cell.0 < n
                &&& row_units(height, cell.0 as int) > 0
                &&& cell.1 == glyph_for(style, row_units(height, cell.0 as int))
            },
    decreases n,
{
    if n > 0 {
        lemma_column_cells(height, n - 1, style);
        let prev = spec_column(height, n - 1, style);
        let cur = spec_column(height, n, style);
        assert forall|j: int| 0 <= j < cur.len() implies {
            let cell = #[trigger] cur[j];
            &&& cell.0 < n
            &&& row_units(height, cell.0 as int) > 0
            &&& cell.1 == glyph_for(style, row_units(height, cell.0 as int))
        } by {
            if j < prev.len() {
                assert(cur[j] == prev[j]);
            }
        }
    }
}

/// A widget draws each bar as exactly the quantized column of
/// [`render_column`]'s contract, relocated to the screen: row `r` of the
/// quantizer lands at screen row `top + height - 1 - r` in the bar's
/// column `x`.
pub proof fn lemma_bar_cells_match_column(
    bar: u8,
    x: u16,
    top: u16,
    height: u16,
    style: GlyphStyle,
    n: int,
)
    requires
        0 <= n <= height,
        top + height <= u16::MAX,
    ensures
        spec_bar_cells(bar, x, top, height, style, n) == spec_column(bar, n, style).map_values(
            |rc: (u16, char)| (x, (top + height - 1 - rc.0) as u16, rc.1),
        ),
    decreases n,
{
    let f = |rc: (u16, char)| (x, (top + height - 1 - rc.0) as u16, rc.1);
    if n > 0 {
        lemma_bar_cells_match_column(bar, x, top, height, style, n - 1);
        lemma_column_cells(bar, n - 1, style);
        lemma_column_cells(bar, n, style);
    }
    assert(spec_bar_cells(bar, x, top, height, style, n) =~= spec_column(
        bar,
        n,
        style,
    ).map_values(f));
}

/// Every cell of one bar's column stays in the bar's screen column and
/// inside the area's rows.
pub proof fn lemma_bar_cells_in_area(
    bar: u8,
    x: u16,
    top: u16,
    height: u16,
    style: GlyphStyle,
    n: int,
)
    requires
        0 <= n <= height,
        top + height <= u16::MAX,
    ensures
        forall|j: int|
            0 <= j < spec_bar_cells(bar, x, top, height, style, n).len() ==> {
                let cell = #[trigger] spec_bar_cells(bar, x, top, height, style, n)[j];
                &&& cell.0 == x
                &&& top + height - n <= cell.1 < top + height
            },
    decreases n,
{
    if n > 0 {
        lemma_bar_cells_in_area(bar, x, top, height, style, n - 1);
        let prev = spec_bar_cells(bar, x, top, height, style, n - 1);
        let cur = spec_bar_cells(bar, x, top, height, style, n);
        assert forall|j: int| 0 <= j < cur.len() implies {
            let cell = #[trigger] cur[j];
            &&& cell.0 == x
            &&& top + height - n <= cell.1 < top + height
        } by {
            if j < prev.len() {
                assert(cur[j] == prev[j]);
            }
        }
    }
}

/// Every cell a bar widget writes stays inside its area: in one of the
/// first `n` bar columns and within the area's rows.
pub proof fn lemma_cells_in_area(
    data: Seq<u8>,
    left: u16,
    top: u16,
    height: u16,
    style: GlyphStyle,
    n: int,
)
    requires
        0 <= n <= data.len(),
        left + n <= u16::MAX,
        top + height <= u16::MAX,
    ensures
        forall|j: int|
            0 <= j < spec_cells_up_to(data, left, top, height, style, n).len() ==> {
                let cell = #[trigger] spec_cells_up_to(data, left, top, height, style, n)[j];
                &&& left <= cell.0 < left + n
                &&& top <= cell.1 < top + height
            },
    decreases n,
{
    if n > 0 {
        lemma_cells_in_area(data, left, top, height, style, n - 1);
        lemma_bar_cells_in_area(data[n - 1], (left + n - 1) as u16, top, height, style, height as int);
        let prev = spec_cells_up_to(data, left, top, height, style, n - 1);
        let last = spec_bar_cells(data[n - 1], (left + n - 1) as u16, top, height, style, height as int);
        let cur = spec_cells_up_to(data, left, top, height, style, n);
        assert forall|j: int| 0 <= j < cur.len() implies {
            let cell = #[trigger] cur[j];
            &&& left <= cell.0 < left + n
            &&& top <= cell.1 < top + height
        } by {
            if j < prev.len() {
                assert(cur[j] == prev[j]);
            } else {
                assert(cur[j] == last[j - prev.len()]);
            }
        }
    }
}

} // verus!
