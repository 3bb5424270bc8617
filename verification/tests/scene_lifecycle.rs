//! Build-then-teardown round trip: the overlay arrives as one batch of 26
//! tagged nodes and leaves without a trace; foreign nodes survive.

use jammy_splash_screen::builder::setup_splash_screen;
use jammy_splash_screen::frac::Frac;
use jammy_splash_screen::layout::Color;
use jammy_splash_screen::scene::{destroy_splash_screen, Node, SceneGraph};

fn foreign_node() -> Node {
    Node {
        overlay: false,
        bar_fill: false,
        symbol: false,
        x: Frac { num: 7, den: 1 },
        y: Frac { num: -3, den: 1 },
        width: Frac { num: 10, den: 1 },
        height: Frac { num: 10, den: 1 },
        rotation: Frac { num: 0, den: 1 },
        scale_x: Frac { num: 1, den: 1 },
        scale_y: Frac { num: 1, den: 1 },
        color: Color { r: 1, g: 2, b: 3 },
    }
}

#[test]
fn build_creates_the_full_batch() {
    let mut g = SceneGraph::new();
    setup_splash_screen(&mut g);
    // 3 bar rectangles + 22 glyph rectangles + 1 symbol.
    assert_eq!(g.nodes.len(), 26);
    assert_eq!(g.overlay_ids().len(), 26);
    assert_eq!(g.clear_color, Some(Color { r: 20, g: 20, b: 20 }));
    // The fill rectangle is the third node, empty at build time.
    assert!(g.nodes[2].node.bar_fill);
    assert_eq!(g.nodes[2].node.width.num, 0);
    assert_eq!(g.nodes[2].node.height.num, 16);
    // The symbol is the last node, above the bar.
    assert!(g.nodes[25].node.symbol);
    assert_eq!(g.nodes[25].node.y.num, 76);
    assert_eq!(g.nodes[25].node.width.num, 64);
    // Identifiers are handed out in order.
    for (k, sn) in g.nodes.iter().enumerate() {
        assert_eq!(sn.id, k as u64);
    }
}

#[test]
fn teardown_leaves_nothing_of_the_overlay() {
    let mut g = SceneGraph::new();
    setup_splash_screen(&mut g);
    assert_eq!(g.overlay_ids().len(), 26);
    destroy_splash_screen(&mut g);
    assert_eq!(g.overlay_ids().len(), 0);
    assert_eq!(g.nodes.len(), 0);
    assert_eq!(g.clear_color, None);
}

#[test]
fn teardown_is_idempotent() {
    let mut g = SceneGraph::new();
    setup_splash_screen(&mut g);
    destroy_splash_screen(&mut g);
    let after_first = g.nodes.clone();
    destroy_splash_screen(&mut g);
    assert_eq!(g.nodes.len(), after_first.len());
    assert_eq!(g.overlay_ids().len(), 0);
}

#[test]
fn foreign_nodes_survive_the_round_trip() {
    let mut g = SceneGraph::new();
    let foreign_id = g.spawn(foreign_node());
    setup_splash_screen(&mut g);
    assert_eq!(g.nodes.len(), 27);
    assert_eq!(g.overlay_ids().len(), 26);
    destroy_splash_screen(&mut g);
    assert_eq!(g.nodes.len(), 1);
    assert_eq!(g.nodes[0].id, foreign_id);
    assert_eq!(g.nodes[0].node, foreign_node());
}

#[test]
fn teardown_on_an_empty_scene_does_nothing() {
    let mut g = SceneGraph::new();
    destroy_splash_screen(&mut g);
    assert_eq!(g.nodes.len(), 0);
    assert_eq!(g.overlay_ids().len(), 0);
}
