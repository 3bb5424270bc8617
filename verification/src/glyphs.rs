//! The hand-authored glyph table: the block-letter word drawn as plain
//! rectangles, so the splash screen needs no font asset — nothing is loaded
//! before it can render.
//!
//! The word's bounding box is divided into `TEXT_COLS × TEXT_ROWS` cells;
//! every table entry sits on quarter-cell boundaries, so all coordinates
//! here are integers counting quarter cells.  The table is fixed at compile
//! time and never mutated.

use crate::frac::Frac;
use crate::layout::{spec_text_color, TEXT_COLS, TEXT_ROWS, TEXT_WIDTH};
use crate::scene::Node;
use vstd::prelude::*;

verus! {

/// Quarter-cell offset of the grid origin: the center of the bottom-left
/// cell sits `2 · TEXT_COLS − 2` quarter cells left of the box center.
pub const GLYPH_X_SHIFT_Q: i64 = 50;

/// Denominator of horizontal glyph coordinates: a quarter cell is
/// `TEXT_WIDTH / (4 · TEXT_COLS)` units wide, so `4 · TEXT_COLS`.
pub const GLYPH_X_DEN: i64 = 104;

/// A quarter cell's height in scene units: `CELL_HEIGHT / 4`.
pub const QUARTER_CELL_HEIGHT: i64 = 2;

/// Vertical position of the grid origin: the center of the bottom-left
/// cell, `TEXT_CENTER_Y + (CELL_HEIGHT − TEXT_HEIGHT) / 2`.
pub const GLYPH_Y_BASE: i64 = -68;

/// One rectangle of the block-letter word, in quarter-cell grid units:
/// `x_q`, `y_q` place the rectangle's center, counted from the center of
/// the grid's bottom-left cell; `w_q`, `h_q` give its size.
#[derive(Clone, Copy, PartialEq, Eq, Structural, Debug)]
pub struct GlyphCell {
    /// Horizontal center, in quarter cells right of the grid origin.
    pub x_q: i64,
    /// Vertical center, in quarter cells above the grid origin.
    pub y_q: i64,
    /// Width, in quarter cells.
    pub w_q: i64,
    /// Height, in quarter cells.
    pub h_q: i64,
}

impl GlyphCell {
    /// The entry lies on the grid: center within the box, positive size no
    /// larger than the whole box.
    pub open spec fn wf(self) -> bool {
        &&& 0 <= self.x_q <= 4 * TEXT_COLS
        &&& 0 <= self.y_q <= 4 * TEXT_ROWS
        &&& 0 < self.w_q <= 4 * TEXT_COLS
        &&& 0 < self.h_q <= 4 * TEXT_ROWS
    }
}

/// The fixed table: 22 rectangles that spell the word "LOADING",
/// grouped by letter.
pub open spec fn spec_glyph_cells() -> Seq<GlyphCell> {
    seq![
        // L
        GlyphCell { x_q: 0, y_q: 8, w_q: 4, h_q: 20 },
        GlyphCell { x_q: 6, y_q: 0, w_q: 8, h_q: 4 },
        // O
        GlyphCell { x_q: 16, y_q: 8, w_q: 4, h_q: 20 },
        GlyphCell { x_q: 24, y_q: 8, w_q: 4, h_q: 20 },
        GlyphCell { x_q: 20, y_q: 0, w_q: 4, h_q: 4 },
        GlyphCell { x_q: 20, y_q: 16, w_q: 4, h_q: 4 },
        // A
        GlyphCell { x_q: 32, y_q: 8, w_q: 4, h_q: 20 },
        GlyphCell { x_q: 40, y_q: 8, w_q: 4, h_q: 20 },
        GlyphCell { x_q: 36, y_q: 8, w_q: 4, h_q: 4 },
        GlyphCell { x_q: 36, y_q: 16, w_q: 4, h_q: 4 },
        // D
        GlyphCell { x_q: 50, y_q: 8, w_q: 4, h_q: 12 },
        GlyphCell { x_q: 58, y_q: 8, w_q: 4, h_q: 12 },
        GlyphCell { x_q: 52, y_q: 0, w_q: 12, h_q: 4 },
        GlyphCell { x_q: 52, y_q: 16, w_q: 12, h_q: 4 },
        // I
        GlyphCell { x_q: 67, y_q: 8, w_q: 4, h_q: 20 },
        // N
        GlyphCell { x_q: 76, y_q: 8, w_q: 4, h_q: 20 },
        GlyphCell { x_q: 84, y_q: 8, w_q: 4, h_q: 20 },
        GlyphCell { x_q: 80, y_q: 16, w_q: 4, h_q: 4 },
        // G
        GlyphCell { x_q: 92, y_q: 8, w_q: 4, h_q: 20 },
        GlyphCell { x_q: 100, y_q: 4, w_q: 4, h_q: 12 },
        GlyphCell { x_q: 98, y_q: 0, w_q: 8, h_q: 4 },
        GlyphCell { x_q: 98, y_q: 16, w_q: 8, h_q: 4 },
    ]
}

/// Every entry of the fixed table lies on the grid.
pub proof fn lemma_glyph_cells_wf()
    ensures
        forall|i: int|
            0 <= i < spec_glyph_cells().len() ==> (#[trigger] spec_glyph_cells()[i]).wf(),
{
}

/// The fixed table, as a vector for the builder to walk.
pub fn glyph_cells() -> (cells: Vec<GlyphCell>)
    ensures
        cells@ == spec_glyph_cells(),
{
    let mut cells: Vec<GlyphCell> = Vec::new();
    cells.push(GlyphCell { x_q: 0, y_q: 8, w_q: 4, h_q: 20 });
    cells.push(GlyphCell { x_q: 6, y_q: 0, w_q: 8, h_q: 4 });
    cells.push(GlyphCell { x_q: 16, y_q: 8, w_q: 4, h_q: 20 });
    cells.push(GlyphCell { x_q: 24, y_q: 8, w_q: 4, h_q: 20 });
    cells.push(GlyphCell { x_q: 20, y_q: 0, w_q: 4, h_q: 4 });
    cells.push(GlyphCell { x_q: 20, y_q: 16, w_q: 4, h_q: 4 });
    cells.push(GlyphCell { x_q: 32, y_q: 8, w_q: 4, h_q: 20 });
    cells.push(GlyphCell { x_q: 40, y_q: 8, w_q: 4, h_q: 20 });
    cells.push(GlyphCell { x_q: 36, y_q: 8, w_q: 4, h_q: 4 });
    cells.push(GlyphCell { x_q: 36, y_q: 16, w_q: 4, h_q: 4 });
    cells.push(GlyphCell { x_q: 50, y_q: 8, w_q: 4, h_q: 12 });
    cells.push(GlyphCell { x_q: 58, y_q: 8, w_q: 4, h_q: 12 });
    cells.push(GlyphCell { x_q: 52, y_q: 0, w_q: 12, h_q: 4 });
    cells.push(GlyphCell { x_q: 52, y_q: 16, w_q: 12, h_q: 4 });
    cells.push(GlyphCell { x_q: 67, y_q: 8, w_q: 4, h_q: 20 });
    cells.push(GlyphCell { x_q: 76, y_q: 8, w_q: 4, h_q: 20 });
    cells.push(GlyphCell { x_q: 84, y_q: 8, w_q: 4, h_q: 20 });
    cells.push(GlyphCell { x_q: 80, y_q: 16, w_q: 4, h_q: 4 });
    cells.push(GlyphCell { x_q: 92, y_q: 8, w_q: 4, h_q: 20 });
    cells.push(GlyphCell { x_q: 100, y_q: 4, w_q: 4, h_q: 12 });
    cells.push(GlyphCell { x_q: 98, y_q: 0, w_q: 8, h_q: 4 });
    cells.push(GlyphCell { x_q: 98, y_q: 16, w_q: 8, h_q: 4 });
    proof {
        assert(cells@ =~= spec_glyph_cells());
    }
    cells
}

/// The rectangle a glyph cell stamps, in absolute overlay coordinates.
///
/// Horizontally a cell is `TEXT_WIDTH / TEXT_COLS` wide and the box is
/// centered, so a center `x_q` quarter cells right of the grid origin
/// lands at `TEXT_WIDTH · (x_q − GLYPH_X_SHIFT_Q) / GLYPH_X_DEN`.
/// Vertically rows are `CELL_HEIGHT` high, so the center lands at
/// `GLYPH_Y_BASE + QUARTER_CELL_HEIGHT · y_q`, an integer.
pub open spec fn spec_glyph_node(c: GlyphCell) -> Node {
    Node {
        overlay: true,
        bar_fill: false,
        symbol: false,
        x: Frac { num: (TEXT_WIDTH * (c.x_q - GLYPH_X_SHIFT_Q)) as i64, den: GLYPH_X_DEN },
        y: Frac { num: (GLYPH_Y_BASE + QUARTER_CELL_HEIGHT * c.y_q) as i64, den: 1 },
        width: Frac { num: (TEXT_WIDTH * c.w_q) as i64, den: GLYPH_X_DEN },
        height: Frac { num: (QUARTER_CELL_HEIGHT * c.h_q) as i64, den: 1 },
        rotation: Frac { num: 0, den: 1 },
        scale_x: Frac { num: 1, den: 1 },
        scale_y: Frac { num: 1, den: 1 },
        color: spec_text_color(),
    }
}

/// Stamps one glyph cell: computes its rectangle exactly.
pub fn glyph_node(c: GlyphCell) -> (n: Node)
    requires
        c.wf(),
    ensures
        n == spec_glyph_node(c),
{
    Node {
        overlay: true,
        bar_fill: false,
        symbol: false,
        x: Frac { num: TEXT_WIDTH * (c.x_q - GLYPH_X_SHIFT_Q), den: GLYPH_X_DEN },
        y: Frac { num: GLYPH_Y_BASE + QUARTER_CELL_HEIGHT * c.y_q, den: 1 },
        width: Frac { num: TEXT_WIDTH * c.w_q, den: GLYPH_X_DEN },
        height: Frac { num: QUARTER_CELL_HEIGHT * c.h_q, den: 1 },
        rotation: Frac { num: 0, den: 1 },
        scale_x: Frac { num: 1, den: 1 },
        scale_y: Frac { num: 1, den: 1 },
        color: crate::layout::Color { r: 80, g: 80, b: 78 },
    }
}

} // verus!
