//! The dot-matrix spectrum widget: the same bar rendering as the block-style
//! one, drawn with braille glyphs.

use vstd::prelude::*;
use crate::quantize::{GlyphStyle, render_cells, spec_widget_cells};

verus! {

/// Bar heights to be drawn with braille dot-matrix glyphs, one column per
/// entry.
pub struct CavaBars {
    data: Vec<u8>,
}

impl View for CavaBars {
    type V = Seq<u8>;

    closed spec fn view(&self) -> Seq<u8> {
        self.data@
    }
}

impl CavaBars {
    /// Wrap the displayed heights for rendering.
    pub fn new(data: Vec<u8>) -> (s: Self)
        ensures
            s@ == data@,
    {
        CavaBars { data }
    }

    /// The cells one frame writes for this widget inside the area starting
    /// at `(left, top)`, `width` columns wide and `height` text rows tall:
    /// one bottom-aligned dot-matrix column per bar, at most `width` bars.
    pub fn render(&self, left: u16, top: u16, width: u16, height: u16) -> (r: Vec<
        (u16, u16, char),
    >)
        requires
            left + width <= u16::MAX,
            top + height <= u16::MAX,
        ensures
            r@ == spec_widget_cells(self@, left, top, width, height, GlyphStyle::Dots),
    {
        render_cells(&self.data, left, top, width, height, GlyphStyle::Dots)
    }
}

} // verus!
