//! Reading the host's progress counter.
//!
//! The counter is the externally owned progress source.  What it reports on
//! a given frame depends on the host's loading systems, so nothing can be
//! promised about the pair that comes back; the placement computed *from*
//! the pair is what this library vouches for, whatever was reported.

use crate::bar::{
    bar_placement, spec_bar_applied, spec_bar_offset, spec_bar_width, update_loading_bar,
    BarPlacement,
};
use crate::layout::INNER_WIDTH;
use crate::scene::SceneGraph;
use vstd::prelude::*;

verus! {

/// The host's progress counter resource.
#[verifier::external_type_specification]
#[verifier::external_body]
pub struct ExProgressCounter(iyes_progress::ProgressCounter);

/// Relies on `iyes_progress::ProgressCounter::progress`: reads the
/// counter's visible `(done, total)` pair.  The pair depends on what the
/// host's loading systems have reported so far, so nothing is stated of
/// its values.
#[verifier::external_body]
fn read_progress(counter: &iyes_progress::ProgressCounter) -> (r: (u32, u32)) {
    let p = counter.progress();
    (p.done, p.total)
}

/// Reads the counter and computes the frame's fill placement from the pair
/// it reported, returning the pair beside the placement.  Whatever the
/// counter said, the placement is the exact one for the returned pair, and
/// the fill stays within the inner box.
pub fn bar_placement_from_counter(counter: &iyes_progress::ProgressCounter) -> (r: (
    BarPlacement,
    u32,
    u32,
))
    ensures
        r.0.width == spec_bar_width(r.1, r.2),
        r.0.offset_x == spec_bar_offset(r.1, r.2),
        r.0.width.wf(),
        r.0.offset_x.wf(),
        r.0.width.ge_int(0),
        r.0.width.le_int(INNER_WIDTH as int),
{
    let (done, total) = read_progress(counter);
    let p = bar_placement(done, total);
    (p, done, total)
}

/// The whole per-frame progress-bar step as the host runs it: reads the
/// counter, then updates every fill-tagged node of the scene to the exact
/// placement for the pair that was read, which is returned.
pub fn update_loading_bar_from_counter(
    g: &mut SceneGraph,
    counter: &iyes_progress::ProgressCounter,
) -> (r: (u32, u32))
    requires
        old(g).wf(),
    ensures
        final(g).wf(),
        final(g).nodes@.len() == old(g).nodes@.len(),
        forall|k: int|
            0 <= k < old(g).nodes@.len() ==> final(g).nodes@[k] == spec_bar_applied(
                old(g).nodes@[k],
                r.0,
                r.1,
            ),
        final(g).next_id == old(g).next_id,
        final(g).clear_color == old(g).clear_color,
{
    let (done, total) = read_progress(counter);
    update_loading_bar(g, done, total);
    (done, total)
}

} // verus!
