//! The plugin configuration, and the progress-counter path with the real
//! counter resource behind it.

use iyes_progress::{Progress, ProgressCounter};
use jammy_splash_screen::builder::setup_splash_screen;
use jammy_splash_screen::plugin::JammySplashScreenPlugin;
use jammy_splash_screen::progress::{bar_placement_from_counter, update_loading_bar_from_counter};
use jammy_splash_screen::scene::SceneGraph;

#[test]
fn new_stores_the_state_and_no_follow_up() {
    let p = JammySplashScreenPlugin::new(4u32);
    assert_eq!(p.state, 4);
    assert_eq!(p.next_state, None);
}

#[test]
fn continue_to_records_the_follow_up_state() {
    let p = JammySplashScreenPlugin::new(4u32).continue_to(9u32);
    assert_eq!(p.state, 4);
    assert_eq!(p.next_state, Some(9));
}

#[test]
fn a_fresh_counter_reports_no_progress() {
    let counter = ProgressCounter::default();
    let (p, done, total) = bar_placement_from_counter(&counter);
    assert_eq!(done, 0);
    assert_eq!(total, 0);
    assert_eq!(p.width.num, 0);
}

#[test]
fn tracked_progress_reaches_the_fill_rectangle() {
    let counter = ProgressCounter::default();
    counter.manually_track(Progress { done: 256, total: 512 });
    let mut g = SceneGraph::new();
    setup_splash_screen(&mut g);
    let (done, total) = update_loading_bar_from_counter(&mut g, &counter);
    assert_eq!((done, total), (256, 512));
    let fill = &g.nodes[2].node;
    assert!(fill.bar_fill);
    assert_eq!(fill.width.num, 504 * 256);
    assert_eq!(fill.width.den, 512);
    assert_eq!(fill.x.num, 504 * 256 - 504 * 512);
    assert_eq!(fill.x.den, 2 * 512);
}
