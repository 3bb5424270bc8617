//! The progress-bar updater: exact widths and offsets, edge policies, and
//! the in-scene update.

use jammy_splash_screen::bar::{bar_placement, update_loading_bar};
use jammy_splash_screen::builder::setup_splash_screen;
use jammy_splash_screen::scene::SceneGraph;

#[test]
fn half_progress_is_half_the_inner_box() {
    // done=256 of total=512 over an inner width of 504: width 252, offset −126.
    let p = bar_placement(256, 512);
    assert_eq!(p.width.num, 504 * 256);
    assert_eq!(p.width.den, 512);
    assert_eq!(p.width.num / p.width.den, 252);
    assert_eq!(p.width.num % p.width.den, 0);
    assert_eq!(p.offset_x.num, 504 * 256 - 504 * 512);
    assert_eq!(p.offset_x.den, 2 * 512);
    assert_eq!(p.offset_x.num / p.offset_x.den, -126);
    assert_eq!(p.offset_x.num % p.offset_x.den, 0);
}

#[test]
fn zero_done_gives_empty_fill() {
    let p = bar_placement(0, 7);
    assert_eq!(p.width.num, 0);
    // The empty fill's center sits at the left edge, −252.
    assert_eq!(p.offset_x.num, -504 * 7);
    assert_eq!(p.offset_x.den, 2 * 7);
}

#[test]
fn full_done_fills_the_inner_box() {
    let p = bar_placement(9, 9);
    assert_eq!(p.width.num, 504 * 9);
    assert_eq!(p.width.den, 9);
    // Full fill is centered: offset 0.
    assert_eq!(p.offset_x.num, 0);
}

#[test]
fn zero_total_counts_as_no_progress() {
    let p = bar_placement(5, 0);
    assert_eq!(p.width.num, 0);
    assert_eq!(p.width.den, 1);
    assert_eq!(p.offset_x.num, -504);
    assert_eq!(p.offset_x.den, 2);
}

#[test]
fn done_past_total_is_capped() {
    let p = bar_placement(10, 4);
    assert_eq!(p.width.num, 504 * 4);
    assert_eq!(p.width.den, 4);
}

#[test]
fn left_edge_is_pinned_for_many_pairs() {
    // offset − width/2 == −252 at the common denominator offset_x.den.
    for (done, total) in [(0u32, 1u32), (1, 3), (97, 100), (512, 512), (1000, 7)] {
        let p = bar_placement(done, total);
        assert_eq!(p.offset_x.den, 2 * p.width.den);
        assert_eq!(p.offset_x.num - p.width.num, -252 * p.offset_x.den);
        // Right edge never passes +252.
        assert!(p.offset_x.num + p.width.num <= 252 * p.offset_x.den);
    }
}

#[test]
fn update_moves_only_the_fill_rectangle() {
    let mut g = SceneGraph::new();
    setup_splash_screen(&mut g);
    let before = g.nodes.clone();
    update_loading_bar(&mut g, 256, 512);
    assert_eq!(g.nodes.len(), before.len());
    for (b, a) in before.iter().zip(g.nodes.iter()) {
        assert_eq!(a.id, b.id);
        if b.node.bar_fill {
            assert_eq!(a.node.width.num, 504 * 256);
            assert_eq!(a.node.width.den, 512);
            assert_eq!(a.node.height.num, 16);
            assert_eq!(a.node.height.den, 1);
            assert_eq!(a.node.x.num, 504 * 256 - 504 * 512);
            assert_eq!(a.node.x.den, 2 * 512);
            // Everything else of the node is untouched.
            assert_eq!(a.node.y, b.node.y);
            assert_eq!(a.node.color, b.node.color);
        } else {
            assert_eq!(a.node, b.node);
        }
    }
}
