//! The symbol animator: a pure per-frame rule mapping elapsed time to the
//! rotation and non-uniform scale of the loading symbol.
//!
//! The host samples its clock in milliseconds and the sine and cosine of the
//! scaled time in milli-units (trigonometry stays with the host; this
//! library holds no floating point).  From those plain values the animator
//! computes the exact pose: rotation `−0.5 · elapsedSeconds` radians and
//! scale `0.2 + (sin + 1) · 0.4` by `0.2 + (cos + 1) · 0.4`.  The pose fully
//! replaces the node's transform each frame, so no drift accumulates.

use crate::frac::Frac;
use crate::layout::SYMBOL_CENTER_Y;
use crate::scene::{Node, SceneGraph, SceneNode};
use vstd::prelude::*;

verus! {

/// One thousandth: the resolution at which the host samples the clock
/// (milliseconds) and the sine and cosine (milli-units).
pub const MILLI: i64 = 1000;

/// Rotation and non-uniform scale of the loading symbol for one frame.
#[derive(Clone, Copy, PartialEq, Eq, Structural, Debug)]
pub struct SymbolPose {
    /// Rotation around the normal axis, in radians.
    pub rotation: Frac,
    /// Horizontal scale factor.
    pub scale_x: Frac,
    /// Vertical scale factor.
    pub scale_y: Frac,
}

/// A trig sample clamped into `[−1, 1]` (milli-units): a sine or cosine can
/// only lie there, so anything outside is pulled to the nearer bound.
pub open spec fn spec_clamped_milli(s: i64) -> int {
    if s < -MILLI {
        -MILLI as int
    } else if s > MILLI {
        MILLI as int
    } else {
        s as int
    }
}

/// Rotation angle in radians: exactly `−(elapsed seconds) / 2`, kept as the
/// rational `−elapsed_ms / 2000`.  The exact angle is stored — no whole
/// turns are added or removed.
pub open spec fn spec_symbol_rotation(elapsed_ms: u64) -> Frac {
    Frac { num: (-(elapsed_ms as int)) as i64, den: (2 * MILLI) as i64 }
}

/// One scale component: `0.2 + (s + 1) · 0.4` for a trig sample `s` in
/// milli-units, over the fixed denominator `5 · MILLI`.
pub open spec fn spec_symbol_scale(s: i64) -> Frac {
    Frac { num: (3 * MILLI + 2 * spec_clamped_milli(s)) as i64, den: (5 * MILLI) as i64 }
}

/// Computes the symbol's pose for one frame from the elapsed time and the
/// host-sampled sine and cosine of half the elapsed seconds.
pub fn symbol_pose(elapsed_ms: u64, sin_milli: i64, cos_milli: i64) -> (pose: SymbolPose)
    requires
        elapsed_ms <= i64::MAX as u64,
    ensures
        pose.rotation == spec_symbol_rotation(elapsed_ms),
        pose.scale_x == spec_symbol_scale(sin_milli),
        pose.scale_y == spec_symbol_scale(cos_milli),
        pose.rotation.wf(),
        pose.scale_x.wf(),
        pose.scale_y.wf(),
        elapsed_ms == 0 ==> pose.rotation.num == 0,
{
    let ms = elapsed_ms as i64;
    let rotation = Frac { num: -ms, den: 2 * MILLI };
    let sx = clamp_milli(sin_milli);
    let sy = clamp_milli(cos_milli);
    let scale_x = Frac { num: 3 * MILLI + 2 * sx, den: 5 * MILLI };
    let scale_y = Frac { num: 3 * MILLI + 2 * sy, den: 5 * MILLI };
    SymbolPose { rotation, scale_x, scale_y }
}

/// Pulls a trig sample into `[−MILLI, MILLI]`.
fn clamp_milli(s: i64) -> (r: i64)
    ensures
        r as int == spec_clamped_milli(s),
{
    if s < -MILLI {
        -MILLI
    } else if s > MILLI {
        MILLI
    } else {
        s
    }
}

/// Law: both scale components always lie within `[0.2, 1.0]` — as
/// rationals, between one fifth and one — whatever sample the host hands
/// in.  The bounds are reached at sample values `−1` and `+1`.
pub proof fn lemma_symbol_scale_bounds(s: i64)
    ensures
        spec_symbol_scale(s).wf(),
        (Frac { num: 1, den: 5 }).le(spec_symbol_scale(s)),
        spec_symbol_scale(s).le(Frac { num: 1, den: 1 }),
{
}

/// Law: the rotation equals `−0.5 · elapsedSeconds` for every elapsed time —
/// dividing `2 · MILLI · rotation.num == −elapsed_ms · rotation.den` by
/// `2 · MILLI · rotation.den` reads `rotation == −(elapsed_ms / MILLI) / 2`.
/// The angle is exact, so it equals `−0.5 · elapsedSeconds` modulo full
/// turns with zero turns added.
pub proof fn lemma_symbol_rotation_exact(elapsed_ms: u64)
    requires
        elapsed_ms <= i64::MAX as u64,
    ensures
        2 * MILLI * spec_symbol_rotation(elapsed_ms).num == -(elapsed_ms as int) * (
        spec_symbol_rotation(elapsed_ms).den as int),
        spec_symbol_rotation(elapsed_ms).wf(),
{
    let rot = spec_symbol_rotation(elapsed_ms);
    assert(rot.num == -(elapsed_ms as int));
    assert(rot.den == 2 * MILLI);
    assert(2 * MILLI * rot.num == -(elapsed_ms as int) * (2 * MILLI)) by (nonlinear_arith)
        requires
            rot.num == -(elapsed_ms as int),
    ;
}

/// What the frame's update does to one node: every node tagged as the
/// symbol gets the frame's pose, and its whole transform is replaced —
/// position back to the fixed anchor, rotation and scale from the clock —
/// so no drift can accumulate; every other node is untouched.
pub open spec fn spec_symbol_applied(
    sn: SceneNode,
    elapsed_ms: u64,
    sin_milli: i64,
    cos_milli: i64,
) -> SceneNode {
    if sn.node.symbol {
        SceneNode {
            id: sn.id,
            node: Node {
                x: Frac { num: 0, den: 1 },
                y: Frac { num: SYMBOL_CENTER_Y, den: 1 },
                rotation: spec_symbol_rotation(elapsed_ms),
                scale_x: spec_symbol_scale(sin_milli),
                scale_y: spec_symbol_scale(cos_milli),
                ..sn.node
            },
        }
    } else {
        sn
    }
}

/// The per-frame symbol update: replaces the transform of every
/// symbol-tagged node with this frame's pose.  It moves nothing else and
/// creates and destroys nothing.
pub fn update_loading_symbol(g: &mut SceneGraph, elapsed_ms: u64, sin_milli: i64, cos_milli: i64)
    requires
        old(g).wf(),
        elapsed_ms <= i64::MAX as u64,
    ensures
        final(g).wf(),
        final(g).nodes@.len() == old(g).nodes@.len(),
        forall|k: int|
            0 <= k < old(g).nodes@.len() ==> final(g).nodes@[k] == spec_symbol_applied(
                old(g).nodes@[k],
                elapsed_ms,
                sin_milli,
                cos_milli,
            ),
        final(g).next_id == old(g).next_id,
        final(g).clear_color == old(g).clear_color,
{
    let pose = symbol_pose(elapsed_ms, sin_milli, cos_milli);
    let mut out: Vec<SceneNode> = Vec::new();
    let mut i: usize = 0;
    while i < g.nodes.len()
        invariant
            i <= g.nodes@.len(),
            g.nodes@ == old(g).nodes@,
            g.next_id == old(g).next_id,
            g.clear_color == old(g).clear_color,
            pose.rotation == spec_symbol_rotation(elapsed_ms),
            pose.scale_x == spec_symbol_scale(sin_milli),
            pose.scale_y == spec_symbol_scale(cos_milli),
            out@.len() == i,
            forall|k: int|
                0 <= k < i ==> out@[k] == spec_symbol_applied(
                    g.nodes@[k],
                    elapsed_ms,
                    sin_milli,
                    cos_milli,
                ),
        decreases g.nodes@.len() - i,
    {
        let sn = g.nodes[i];
        if sn.node.symbol {
            out.push(SceneNode {
                id: sn.id,
                node: Node {
                    x: Frac { num: 0, den: 1 },
                    y: Frac { num: SYMBOL_CENTER_Y, den: 1 },
                    rotation: pose.rotation,
                    scale_x: pose.scale_x,
                    scale_y: pose.scale_y,
                    ..sn.node
                },
            });
        } else {
            out.push(sn);
        }
        i = i + 1;
    }
    proof {
        assert forall|a: int, b: int| 0 <= a < b < out@.len() implies out@[a].id < out@[b].id by {
            assert(out@[a].id == g.nodes@[a].id && out@[b].id == g.nodes@[b].id);
        }
        assert forall|a: int| 0 <= a < out@.len() implies out@[a].id < g.next_id by {
            assert(out@[a].id == g.nodes@[a].id);
        }
    }
    g.nodes = out;
}

} // verus!
