//! The progress-bar updater: a pure per-frame rule mapping a `(done, total)`
//! progress pair to the width and horizontal offset of the fill rectangle.
//!
//! The width is the exact rational `(done / total) · INNER_WIDTH`; the
//! offset keeps the fill left-anchored inside the inner box while it grows
//! to the right.  Two edge policies are fixed here: a frame on which no
//! progress has been registered yet (`total == 0`) counts as zero per cent,
//! and `done` is capped at `total` so the fill never outgrows the box.

use crate::frac::Frac;
use crate::layout::{INNER_HEIGHT, INNER_WIDTH};
use crate::scene::{Node, SceneGraph, SceneNode};
use vstd::prelude::*;

verus! {

/// Where the fill rectangle stands this frame: its width and the horizontal
/// offset of its center.  Height and vertical position are the fixed
/// inner-box values and never change, so they are not part of the placement.
#[derive(Clone, Copy, PartialEq, Eq, Structural, Debug)]
pub struct BarPlacement {
    /// Width of the fill rectangle.
    pub width: Frac,
    /// Horizontal offset of the fill rectangle's center.
    pub offset_x: Frac,
}

/// `done` capped at `total`: the fill never grows past the inner box.
pub open spec fn spec_capped_done(done: u32, total: u32) -> int {
    if done > total {
        total as int
    } else {
        done as int
    }
}

/// Width of the fill: exactly `(done / total) · INNER_WIDTH`, over the
/// denominator `total`.  When `total == 0` the fill is empty.
pub open spec fn spec_bar_width(done: u32, total: u32) -> Frac {
    if total == 0 {
        Frac { num: 0, den: 1 }
    } else {
        Frac { num: (INNER_WIDTH * spec_capped_done(done, total)) as i64, den: total as i64 }
    }
}

/// Horizontal offset of the fill's center: `(width − INNER_WIDTH) / 2`.
/// Its denominator is twice the width's, so numerators over that common
/// denominator compare directly against `width / 2`.
pub open spec fn spec_bar_offset(done: u32, total: u32) -> Frac {
    let w = spec_bar_width(done, total);
    Frac { num: (w.num - INNER_WIDTH * w.den) as i64, den: (2 * w.den) as i64 }
}

/// Computes the frame's placement of the fill rectangle from the progress
/// pair, exactly.
pub fn bar_placement(done: u32, total: u32) -> (p: BarPlacement)
    ensures
        p.width == spec_bar_width(done, total),
        p.offset_x == spec_bar_offset(done, total),
        p.width.wf(),
        p.offset_x.wf(),
        p.offset_x.den == 2 * p.width.den,
        p.width.ge_int(0),
        p.width.le_int(INNER_WIDTH as int),
        done == 0 ==> p.width.num == 0,
        done >= total && total > 0 ==> p.width.is_int(INNER_WIDTH as int),
{
    let capped: i64 = if done > total {
        total as i64
    } else {
        done as i64
    };
    let width = if total == 0 {
        Frac { num: 0, den: 1 }
    } else {
        Frac { num: INNER_WIDTH * capped, den: total as i64 }
    };
    let offset_x = Frac { num: width.num - INNER_WIDTH * width.den, den: 2 * width.den };
    BarPlacement { width, offset_x }
}

/// Law: for `0 ≤ done ≤ total` with `total > 0`, the fill width equals
/// `(done / total) · INNER_WIDTH` — as rationals, `width · total ==
/// done · INNER_WIDTH` — and lies between 0 and `INNER_WIDTH`.
pub proof fn lemma_bar_width_exact(done: u32, total: u32)
    requires
        total > 0,
        done <= total,
    ensures
        spec_bar_width(done, total).wf(),
        spec_bar_width(done, total).num * (total as int) == (done as int) * INNER_WIDTH * (
        spec_bar_width(done, total).den as int),
        spec_bar_width(done, total).ge_int(0),
        spec_bar_width(done, total).le_int(INNER_WIDTH as int),
{
    let w = spec_bar_width(done, total);
    assert(w.num == INNER_WIDTH * done && w.den == total);
    assert(INNER_WIDTH * done * total == done * INNER_WIDTH * total) by (nonlinear_arith);
}

/// Law: the fill is left-anchored.  At the common denominator
/// `offset_x.den == 2 · width.den`, the left edge `offset_x − width/2` has
/// numerator `offset_x.num − width.num`; it sits at `−INNER_WIDTH/2` for
/// every progress pair, and the right edge `offset_x + width/2` never
/// passes `+INNER_WIDTH/2`, reaching it exactly when the bar is full.
pub proof fn lemma_bar_left_anchored(done: u32, total: u32)
    ensures
        ({
            let w = spec_bar_width(done, total);
            let off = spec_bar_offset(done, total);
            let left_edge = Frac { num: (off.num - w.num) as i64, den: off.den };
            let right_edge = Frac { num: (off.num + w.num) as i64, den: off.den };
            &&& off.den == 2 * w.den
            &&& left_edge.is_int(-(INNER_WIDTH as int / 2))
            &&& right_edge.le_int(INNER_WIDTH as int / 2)
            &&& (done >= total && total > 0) ==> right_edge.is_int(INNER_WIDTH as int / 2)
        }),
{
    let w = spec_bar_width(done, total);
    if total != 0 {
        assert(w.num == INNER_WIDTH * spec_capped_done(done, total));
    }
}

/// What the frame's update does to one node: the placement lands on every
/// node tagged as the progress bar's fill — width, horizontal offset and
/// the fixed inner height — and every other node is untouched.
pub open spec fn spec_bar_applied(sn: SceneNode, done: u32, total: u32) -> SceneNode {
    if sn.node.bar_fill {
        SceneNode {
            id: sn.id,
            node: Node {
                x: spec_bar_offset(done, total),
                width: spec_bar_width(done, total),
                height: Frac { num: INNER_HEIGHT, den: 1 },
                ..sn.node
            },
        }
    } else {
        sn
    }
}

/// The per-frame progress-bar update: recomputes the fill rectangle's
/// width and offset from the progress pair read this frame.  It resizes
/// and moves existing nodes; it creates and destroys nothing.
pub fn update_loading_bar(g: &mut SceneGraph, done: u32, total: u32)
    requires
        old(g).wf(),
    ensures
        final(g).wf(),
        final(g).nodes@.len() == old(g).nodes@.len(),
        forall|k: int|
            0 <= k < old(g).nodes@.len() ==> final(g).nodes@[k] == spec_bar_applied(
                old(g).nodes@[k],
                done,
                total,
            ),
        final(g).next_id == old(g).next_id,
        final(g).clear_color == old(g).clear_color,
{
    let p = bar_placement(done, total);
    let mut out: Vec<SceneNode> = Vec::new();
    let mut i: usize = 0;
    while i < g.nodes.len()
        invariant
            i <= g.nodes@.len(),
            g.nodes@ == old(g).nodes@,
            g.next_id == old(g).next_id,
            g.clear_color == old(g).clear_color,
            p.width == spec_bar_width(done, total),
            p.offset_x == spec_bar_offset(done, total),
            out@.len() == i,
            forall|k: int|
                0 <= k < i ==> out@[k] == spec_bar_applied(g.nodes@[k], done, total),
        decreases g.nodes@.len() - i,
    {
        let sn = g.nodes[i];
        if sn.node.bar_fill {
            out.push(SceneNode {
                id: sn.id,
                node: Node {
                    x: p.offset_x,
                    width: p.width,
                    height: Frac { num: INNER_HEIGHT, den: 1 },
                    ..sn.node
                },
            });
        } else {
            out.push(sn);
        }
        i = i + 1;
    }
    proof {
        assert forall|a: int, b: int| 0 <= a < b < out@.len() implies out@[a].id < out@[b].id by {
            assert(out@[a].id == g.nodes@[a].id && out@[b].id == g.nodes@[b].id);
        }
        assert forall|a: int| 0 <= a < out@.len() implies out@[a].id < g.next_id by {
            assert(out@[a].id == g.nodes@[a].id);
        }
    }
    g.nodes = out;
}

} // verus!
