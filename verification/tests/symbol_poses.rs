//! The symbol animator: exact rotation, scale bounds, clamping, and the
//! in-scene update.

use jammy_splash_screen::builder::setup_splash_screen;
use jammy_splash_screen::scene::SceneGraph;
use jammy_splash_screen::symbol::{symbol_pose, update_loading_symbol};

#[test]
fn at_start_no_rotation_and_resting_scale() {
    // elapsed 0: sin(0) = 0, cos(0) = 1 in milli-units.
    let pose = symbol_pose(0, 0, 1000);
    assert_eq!(pose.rotation.num, 0);
    // scale_x = 0.2 + (0 + 1)·0.4 = 0.6
    assert_eq!(pose.scale_x.num, 3000);
    assert_eq!(pose.scale_x.den, 5000);
    // scale_y = 0.2 + (1 + 1)·0.4 = 1.0
    assert_eq!(pose.scale_y.num, 5000);
    assert_eq!(pose.scale_y.den, 5000);
}

#[test]
fn rotation_is_minus_half_the_elapsed_seconds() {
    // 3000 ms: rotation −1.5 rad, kept as −3000/2000.
    let pose = symbol_pose(3000, 0, 0);
    assert_eq!(pose.rotation.num, -3000);
    assert_eq!(pose.rotation.den, 2000);
}

#[test]
fn scale_reaches_its_bounds_at_the_trig_extremes() {
    let low = symbol_pose(0, -1000, -1000);
    assert_eq!(low.scale_x.num, 1000); // 0.2
    assert_eq!(low.scale_y.num, 1000);
    let high = symbol_pose(0, 1000, 1000);
    assert_eq!(high.scale_x.num, 5000); // 1.0
    assert_eq!(high.scale_y.num, 5000);
}

#[test]
fn out_of_range_samples_are_clamped() {
    let pose = symbol_pose(0, 33333, -33333);
    assert_eq!(pose.scale_x.num, 5000);
    assert_eq!(pose.scale_y.num, 1000);
}

#[test]
fn scale_stays_within_bounds_for_many_samples() {
    for s in [-1000i64, -999, -500, -1, 0, 1, 499, 999, 1000] {
        let pose = symbol_pose(123456, s, -s);
        // 0.2 ≤ scale ≤ 1.0, over the fixed denominator 5000.
        assert!(1000 <= pose.scale_x.num && pose.scale_x.num <= 5000);
        assert!(1000 <= pose.scale_y.num && pose.scale_y.num <= 5000);
        assert_eq!(pose.scale_x.den, 5000);
        assert_eq!(pose.scale_y.den, 5000);
    }
}

#[test]
fn update_replaces_only_the_symbol_transform() {
    let mut g = SceneGraph::new();
    setup_splash_screen(&mut g);
    let before = g.nodes.clone();
    update_loading_symbol(&mut g, 2000, 500, -500);
    assert_eq!(g.nodes.len(), before.len());
    for (b, a) in before.iter().zip(g.nodes.iter()) {
        assert_eq!(a.id, b.id);
        if b.node.symbol {
            // Transform fully replaced: anchor, rotation and scale set anew.
            assert_eq!(a.node.x.num, 0);
            assert_eq!(a.node.y.num, 76);
            assert_eq!(a.node.y.den, 1);
            assert_eq!(a.node.rotation.num, -2000);
            assert_eq!(a.node.rotation.den, 2000);
            assert_eq!(a.node.scale_x.num, 3000 + 2 * 500);
            assert_eq!(a.node.scale_y.num, 3000 - 2 * 500);
            // Size and color are untouched.
            assert_eq!(a.node.width, b.node.width);
            assert_eq!(a.node.height, b.node.height);
            assert_eq!(a.node.color, b.node.color);
        } else {
            assert_eq!(a.node, b.node);
        }
    }
}
