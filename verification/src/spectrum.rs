//! The block-style spectrum widget: wraps the displayed bar heights and
//! computes the glyph cells one frame writes for them.

use vstd::prelude::*;
use crate::quantize::{GlyphStyle, render_cells, spec_widget_cells};

verus! {

/// Bar heights to be drawn with partial-block glyphs, one column per entry.
pub struct SpectrumBars {
    data: Vec<u8>,
}

impl View for SpectrumBars {
    type V = Seq<u8>;

    closed spec fn view(&self) -> Seq<u8> {
        self.data@
    }
}

impl SpectrumBars {
    /// Wrap the displayed heights for rendering.
    pub fn new(data: Vec<u8>) -> (s: Self)
        ensures
            s@ == data@,
    {
        SpectrumBars { data }
    }

    /// The cells one frame writes for this widget inside the area starting
    /// at `(left, top)`, `width` columns wide and `height` text rows tall:
    /// one bottom-aligned block-style column per bar, at most `width` bars.
    pub fn render(&self, left: u16, top: u16, width: u16, height: u16) -> (r: Vec<
        (u16, u16, char),
    >)
        requires
            left + width <= u16::MAX,
            top + height <= u16::MAX,
        ensures
            r@ == spec_widget_cells(self@, left, top, width, height, GlyphStyle::Block),
    {
        render_cells(&self.data, left, top, width, height, GlyphStyle::Block)
    }
}

} // verus!
