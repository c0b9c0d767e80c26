//! Verified core of a terminal music-player front-end: a glyph quantizer for
//! the bar visualization, the spectrum-bar widgets' cell computation, a
//! debounced scroll/selection controller, and the queue-line formatting.
//! Terminal drawing, the player connection and the floating-point wave model
//! live outside the library and only exchange plain values with it.

pub mod app;
pub mod cava;
pub mod functions;
pub mod menus;
pub mod quantize;
pub mod scroll;
pub mod spectrum;

use vstd::prelude::*;

verus! {

} // verus!
