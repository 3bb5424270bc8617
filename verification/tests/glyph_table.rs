//! The glyph table and its layout arithmetic, checked against the plain
//! floating-point formulation of the grid.

use jammy_splash_screen::glyphs::{glyph_cells, glyph_node};

#[test]
fn the_word_has_twenty_two_rectangles() {
    assert_eq!(glyph_cells().len(), 22);
}

#[test]
fn first_rectangle_sits_on_the_left_column() {
    let cells = glyph_cells();
    let n = glyph_node(cells[0]);
    // Center of column 0, rows 0..5: x = 275·(0 − 50)/104, y = −52.
    assert_eq!(n.x.num, -13750);
    assert_eq!(n.x.den, 104);
    assert_eq!(n.y.num, -52);
    assert_eq!(n.y.den, 1);
    // One cell wide, five cells high: 275/26 × 40.
    assert_eq!(n.width.num, 275 * 4);
    assert_eq!(n.width.den, 104);
    assert_eq!(n.height.num, 40);
    assert!(n.overlay && !n.bar_fill && !n.symbol);
}

#[test]
fn rectangles_match_the_float_formulation_of_the_grid() {
    // The grid in floating point, as a renderer would compute it:
    // cell = (275/26, 40/5), origin at ((−275 + cell_w)/2, (−40 + cell_h)/2)
    // relative to the text block center (0, −52).
    let cell_w = 275.0f64 / 26.0;
    let cell_h = 40.0f64 / 5.0;
    let origin_x = (-275.0 + cell_w) / 2.0;
    let origin_y = -52.0 + (-40.0 + cell_h) / 2.0;
    for c in glyph_cells() {
        let n = glyph_node(c);
        let expect_x = origin_x + cell_w * (c.x_q as f64) / 4.0;
        let expect_y = origin_y + cell_h * (c.y_q as f64) / 4.0;
        let expect_w = cell_w * (c.w_q as f64) / 4.0;
        let expect_h = cell_h * (c.h_q as f64) / 4.0;
        let got_x = n.x.num as f64 / n.x.den as f64;
        let got_y = n.y.num as f64 / n.y.den as f64;
        let got_w = n.width.num as f64 / n.width.den as f64;
        let got_h = n.height.num as f64 / n.height.den as f64;
        assert!((got_x - expect_x).abs() < 1e-9);
        assert!((got_y - expect_y).abs() < 1e-9);
        assert!((got_w - expect_w).abs() < 1e-9);
        assert!((got_h - expect_h).abs() < 1e-9);
    }
}

#[test]
fn all_rectangles_stay_inside_the_text_box() {
    // Horizontally: |x| + w/2 ≤ 275/2, at the common denominator 104.
    // Vertically: the box spans −72 ≤ y ≤ −32 around the center −52.
    for c in glyph_cells() {
        let n = glyph_node(c);
        assert!(n.x.num.abs() + n.width.num / 2 <= 275 * 104 / 2);
        assert!(-72 <= n.y.num - n.height.num / 2 && n.y.num + n.height.num / 2 <= -32);
    }
}
