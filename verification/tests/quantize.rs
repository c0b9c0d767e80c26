use smpd_tui::quantize::{glyph, render_column, render_cells, row_fill, GlyphStyle};

#[test]
fn render_column_block_exact() {
    // 5 units over 2 rows: a full bottom row (4 units) and 1 unit above it.
    let r = render_column(5, 2, GlyphStyle::Block);
    assert_eq!(r, vec![(0u16, '\u{2588}'), (1u16, '\u{2582}')]);
}

#[test]
fn render_column_dots_exact() {
    // 7 units over 3 rows: 4 + 3, and the top row stays empty.
    let r = render_column(7, 3, GlyphStyle::Dots);
    assert_eq!(r, vec![(0u16, '\u{280F}'), (1u16, '\u{2807}')]);
}

#[test]
fn render_column_zero_height_renders_nothing() {
    for rows in 0..=64u16 {
        assert!(render_column(0, rows, GlyphStyle::Block).is_empty());
        assert!(render_column(0, rows, GlyphStyle::Dots).is_empty());
    }
}

#[test]
fn render_column_tall_bar_saturates() {
    // 255 units over 2 rows: both rows full.
    let r = render_column(255, 2, GlyphStyle::Block);
    assert_eq!(r, vec![(0u16, '\u{2588}'), (1u16, '\u{2588}')]);
}

#[test]
fn units_sum_matches_clamped_height() {
    // Over every height and every row count up to 64, the rendered units
    // add up to min(height, 4 * rows).
    for height in 0..=255u8 {
        for rows in 1..=64u16 {
            let mut sum: u32 = 0;
            for row in 0..rows {
                sum += row_fill(height, row) as u32;
            }
            let cap = 4 * rows as u32;
            let expect = (height as u32).min(cap);
            assert_eq!(sum, expect);
        }
    }
}

#[test]
fn fill_is_monotone_bottom_to_top() {
    for height in 0..=255u8 {
        for row in 0..64u16 {
            assert!(row_fill(height, row + 1) <= row_fill(height, row));
        }
    }
}

#[test]
fn glyph_tables() {
    assert_eq!(glyph(GlyphStyle::Dots, 1), '\u{2801}');
    assert_eq!(glyph(GlyphStyle::Dots, 2), '\u{2803}');
    assert_eq!(glyph(GlyphStyle::Dots, 3), '\u{2807}');
    assert_eq!(glyph(GlyphStyle::Dots, 4), '\u{280F}');
    assert_eq!(glyph(GlyphStyle::Block, 1), '\u{2582}');
    assert_eq!(glyph(GlyphStyle::Block, 2), '\u{2584}');
    assert_eq!(glyph(GlyphStyle::Block, 3), '\u{2586}');
    assert_eq!(glyph(GlyphStyle::Block, 4), '\u{2588}');
}

#[test]
fn render_cells_two_bars() {
    // Area starting at column 10, row 2, two rows tall: bars are drawn
    // bottom-aligned, one column apiece.
    let data = vec![5u8, 9u8];
    let r = render_cells(&data, 10, 2, 5, 2, GlyphStyle::Block);
    assert_eq!(
        r,
        vec![
            (10u16, 3u16, '\u{2588}'),
            (10u16, 2u16, '\u{2582}'),
            (11u16, 3u16, '\u{2588}'),
            (11u16, 2u16, '\u{2588}'),
        ]
    );
}

#[test]
fn render_cells_caps_bars_at_width() {
    // Three bars but only two columns of room: the third is not drawn.
    let data = vec![4u8, 4u8, 4u8];
    let r = render_cells(&data, 0, 0, 2, 1, GlyphStyle::Block);
    assert_eq!(r, vec![(0u16, 0u16, '\u{2588}'), (1u16, 0u16, '\u{2588}')]);
}

#[test]
fn render_cells_empty_area() {
    let data = vec![9u8; 4];
    assert!(render_cells(&data, 0, 0, 0, 5, GlyphStyle::Dots).is_empty());
    assert!(render_cells(&data, 0, 0, 5, 0, GlyphStyle::Dots).is_empty());
}

#[test]
fn widgets_wrap_their_data() {
    let s = smpd_tui::spectrum::SpectrumBars::new(vec![3, 8]);
    // One column per bar, block glyphs.
    let cells = s.render(0, 0, 2, 1);
    assert_eq!(cells, vec![(0u16, 0u16, '\u{2586}'), (1u16, 0u16, '\u{2588}')]);
    let c = smpd_tui::cava::CavaBars::new(vec![3, 8]);
    let cells = c.render(0, 0, 2, 1);
    assert_eq!(cells, vec![(0u16, 0u16, '\u{2807}'), (1u16, 0u16, '\u{280F}')]);
}
