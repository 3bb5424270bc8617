//! Fixed layout constants of the overlay, in scene units.
//!
//! The progress bar is a 512×24 box whose 4-unit border is subtracted twice
//! from each axis to give the fillable inner box.  The block-letter word
//! sits below the bar, drawn on a grid of 26 columns × 5 rows cells inside a
//! 275×40 box; the symbol sits above the bar.  All of these are compile-time
//! constants: construction cannot fail at runtime.

use vstd::prelude::*;

verus! {

/// Total width of the progress bar (border included).
pub const BAR_TOTAL_WIDTH: i64 = 512;

/// Total height of the progress bar (border included).
pub const BAR_TOTAL_HEIGHT: i64 = 24;

/// Thickness of the bar's border on the left and on the right.
pub const BAR_BORDER_WIDTH: i64 = 4;

/// Thickness of the bar's border on the top and on the bottom.
pub const BAR_BORDER_HEIGHT: i64 = 4;

/// Width of the fillable inner box:
/// `BAR_TOTAL_WIDTH − 2 · BAR_BORDER_WIDTH`.
pub const INNER_WIDTH: i64 = 504;

/// Height of the fillable inner box:
/// `BAR_TOTAL_HEIGHT − 2 · BAR_BORDER_HEIGHT`.
pub const INNER_HEIGHT: i64 = 16;

/// Width of the bounding box of the block-letter word.
pub const TEXT_WIDTH: i64 = 275;

/// Height of the bounding box of the block-letter word.
pub const TEXT_HEIGHT: i64 = 40;

/// Vertical gap between the bar's lower edge and the word's upper edge.
pub const TEXT_MARGIN_TOP: i64 = 20;

/// Number of glyph-cell columns the word's box is divided into.
pub const TEXT_COLS: i64 = 26;

/// Number of glyph-cell rows the word's box is divided into.
pub const TEXT_ROWS: i64 = 5;

/// Height of one glyph cell: `TEXT_HEIGHT / TEXT_ROWS` (the rows divide the
/// box height evenly).
pub const CELL_HEIGHT: i64 = 8;

/// Vertical center of the word's box, below the bar by the margin:
/// `−BAR_TOTAL_HEIGHT/2 − TEXT_MARGIN_TOP − TEXT_HEIGHT/2`.
pub const TEXT_CENTER_Y: i64 = -52;

/// Side length of the square loading symbol.
pub const SYMBOL_SIZE: i64 = 64;

/// Vertical gap between the bar's upper edge and the symbol's lower edge.
pub const SYMBOL_MARGIN_BOTTOM: i64 = 32;

/// Vertical center of the symbol, above the bar by the margin:
/// `BAR_TOTAL_HEIGHT/2 + SYMBOL_MARGIN_BOTTOM + SYMBOL_SIZE/2`.
pub const SYMBOL_CENTER_Y: i64 = 76;

/// An RGB color; each channel counts hundredths of full intensity,
/// so 100 is 1.0 to the renderer.
#[derive(Clone, Copy, PartialEq, Eq, Structural, Debug)]
pub struct Color {
    /// Red channel, in hundredths.
    pub r: u8,
    /// Green channel, in hundredths.
    pub g: u8,
    /// Blue channel, in hundredths.
    pub b: u8,
}

/// The clear color behind the whole overlay: a dark grey.
pub open spec fn spec_background_color() -> Color {
    Color { r: 20, g: 20, b: 20 }
}

/// Color of the bar's border.
pub open spec fn spec_border_color() -> Color {
    Color { r: 60, g: 60, b: 56 }
}

/// Color of the bar's empty inner box.
pub open spec fn spec_track_color() -> Color {
    Color { r: 0, g: 0, b: 0 }
}

/// Color of the bar's fill rectangle.
pub open spec fn spec_fill_color() -> Color {
    Color { r: 50, g: 80, b: 20 }
}

/// Color of the block-letter word, shared by the symbol.
pub open spec fn spec_text_color() -> Color {
    Color { r: 80, g: 80, b: 78 }
}

} // verus!
