//! The scene graph the overlay lives in: tagged rectangle nodes with
//! identifiers, batch enumeration by tag, and batch teardown.
//!
//! Every node of the splash screen carries the overlay tag, so the whole
//! overlay can be enumerated and destroyed as one batch; the fill rectangle
//! and the loading symbol carry their own distinguishing tags for the
//! per-frame updaters.  Identifiers are handed out in increasing order and
//! never reused, which is the graph's well-formedness invariant.

use crate::frac::Frac;
use crate::layout::Color;
use vstd::prelude::*;

verus! {

/// One visual element: an axis-aligned rectangle with a transform (center
/// position, rotation, non-uniform scale), a fill color, and its tags.
#[derive(Clone, Copy, PartialEq, Eq, Structural, Debug)]
pub struct Node {
    /// Part of the splash overlay: removed as one batch at teardown.
    pub overlay: bool,
    /// The distinguished fill rectangle of the progress bar.
    pub bar_fill: bool,
    /// The distinguished loading symbol.
    pub symbol: bool,
    /// Horizontal position of the rectangle's center.
    pub x: Frac,
    /// Vertical position of the rectangle's center.
    pub y: Frac,
    /// Width of the rectangle.
    pub width: Frac,
    /// Height of the rectangle.
    pub height: Frac,
    /// Rotation around the normal axis, in radians.
    pub rotation: Frac,
    /// Horizontal scale factor.
    pub scale_x: Frac,
    /// Vertical scale factor.
    pub scale_y: Frac,
    /// Fill color.
    pub color: Color,
}

/// A node together with the identifier the scene graph assigned to it.
#[derive(Clone, Copy, PartialEq, Eq, Structural, Debug)]
pub struct SceneNode {
    /// The identifier, unique within the graph.
    pub id: u64,
    /// The node itself.
    pub node: Node,
}

/// The scene graph: the clear color behind everything, the next free
/// identifier, and the nodes in creation order.
pub struct SceneGraph {
    /// Color the background is cleared to, while the overlay owns it.
    pub clear_color: Option<Color>,
    /// The identifier the next spawned node will get.
    pub next_id: u64,
    /// All live nodes, in creation order.
    pub nodes: Vec<SceneNode>,
}

/// The overlay predicate, shared by every statement about the overlay
/// batch so that all of them speak of one and the same filter.
pub open spec fn spec_overlay_pred() -> spec_fn(SceneNode) -> bool {
    |sn: SceneNode| sn.node.overlay
}

/// The complement predicate: nodes that survive a teardown.
pub open spec fn spec_kept_pred() -> spec_fn(SceneNode) -> bool {
    |sn: SceneNode| !sn.node.overlay
}

/// The overlay batch: the subsequence of overlay-tagged nodes.
pub open spec fn spec_overlay_nodes(s: Seq<SceneNode>) -> Seq<SceneNode> {
    s.filter(spec_overlay_pred())
}

/// What a teardown leaves: the subsequence of untagged nodes.
pub open spec fn spec_kept_nodes(s: Seq<SceneNode>) -> Seq<SceneNode> {
    s.filter(spec_kept_pred())
}

/// Strictly increasing identifiers along a node sequence.
pub open spec fn spec_ids_increasing(s: Seq<SceneNode>) -> bool {
    forall|i: int, j: int| 0 <= i < j < s.len() ==> s[i].id < s[j].id
}

/// Every identifier in the sequence lies below `bound`.
pub open spec fn spec_ids_below(s: Seq<SceneNode>, bound: u64) -> bool {
    forall|i: int| 0 <= i < s.len() ==> s[i].id < bound
}

/// One step of a filter over a growing prefix: filtering `i + 1` elements
/// is filtering `i` elements and maybe keeping the next one.
proof fn lemma_filter_take_step(s: Seq<SceneNode>, pred: spec_fn(SceneNode) -> bool, i: int)
    requires
        0 <= i < s.len(),
    ensures
        s.take(i + 1).filter(pred) == if pred(s[i]) {
            s.take(i).filter(pred).push(s[i])
        } else {
            s.take(i).filter(pred)
        },
{
    reveal(Seq::filter);
    assert(s.take(i + 1).len() == i + 1);
    assert(s.take(i + 1).drop_last() =~= s.take(i));
    assert(s.take(i + 1).last() == s[i]);
}

/// A filter keeps only elements of the original sequence.
proof fn lemma_filter_sub(s: Seq<SceneNode>, pred: spec_fn(SceneNode) -> bool)
    ensures
        forall|k: int|
            0 <= k < s.filter(pred).len() ==> s.contains(#[trigger] s.filter(pred)[k]),
    decreases s.len(),
{
    reveal(Seq::filter);
    if s.len() > 0 {
        let t = s.drop_last();
        lemma_filter_sub(t, pred);
        let f = s.filter(pred);
        let fd = t.filter(pred);
        assert forall|k: int| 0 <= k < f.len() implies s.contains(f[k]) by {
            if pred(s.last()) && k == f.len() - 1 {
                assert(f[k] == s.last());
                assert(s[s.len() - 1] == s.last());
            } else {
                assert(f[k] == fd[k]);
                assert(t.contains(fd[k]));
                let j = choose|j: int| 0 <= j < t.len() && t[j] == fd[k];
                assert(s[j] == fd[k]);
            }
        }
    }
}

/// A filter of a sequence with strictly increasing identifiers is itself
/// strictly increasing (it is a subsequence, in order).
proof fn lemma_filter_increasing(s: Seq<SceneNode>, pred: spec_fn(SceneNode) -> bool)
    requires
        spec_ids_increasing(s),
    ensures
        spec_ids_increasing(s.filter(pred)),
    decreases s.len(),
{
    reveal(Seq::filter);
    if s.len() > 0 {
        let t = s.drop_last();
        assert(spec_ids_increasing(t)) by {
            assert(forall|i: int, j: int|
                0 <= i < j < t.len() ==> t[i] == s[i] && t[j] == s[j]);
        }
        lemma_filter_increasing(t, pred);
        lemma_filter_sub(t, pred);
        let f = s.filter(pred);
        let fd = t.filter(pred);
        if pred(s.last()) {
            assert forall|i: int, j: int| 0 <= i < j < f.len() implies f[i].id < f[j].id by {
                if j < f.len() - 1 {
                    assert(f[i] == fd[i] && f[j] == fd[j]);
                } else {
                    assert(f[j] == s.last());
                    assert(f[i] == fd[i]);
                    assert(t.contains(fd[i]));
                    let k = choose|k: int| 0 <= k < t.len() && t[k] == fd[i];
                    assert(s[k] == fd[i]);
                    assert(s[k].id < s[s.len() - 1].id);
                }
            }
        }
    }
}

/// A filter keeps every identifier below any bound the originals obeyed.
proof fn lemma_filter_below(s: Seq<SceneNode>, pred: spec_fn(SceneNode) -> bool, bound: u64)
    requires
        spec_ids_below(s, bound),
    ensures
        spec_ids_below(s.filter(pred), bound),
{
    lemma_filter_sub(s, pred);
    assert forall|k: int| 0 <= k < s.filter(pred).len() implies s.filter(pred)[k].id < bound by {
        assert(s.contains(s.filter(pred)[k]));
        let j = choose|j: int| 0 <= j < s.len() && s[j] == s.filter(pred)[k];
        assert(s[j].id < bound);
    }
}

/// A filter whose predicate holds everywhere keeps the whole sequence.
pub(crate) proof fn lemma_filter_all(s: Seq<SceneNode>, pred: spec_fn(SceneNode) -> bool)
    requires
        forall|i: int| 0 <= i < s.len() ==> pred(#[trigger] s[i]),
    ensures
        s.filter(pred) == s,
    decreases s.len(),
{
    reveal(Seq::filter);
    if s.len() > 0 {
        let t = s.drop_last();
        assert(forall|i: int| 0 <= i < t.len() ==> pred(#[trigger] t[i]));
        lemma_filter_all(t, pred);
        assert(pred(s[s.len() - 1]));
        assert(s.filter(pred) =~= s);
    }
}

/// A filter whose predicate holds nowhere keeps nothing.
pub(crate) proof fn lemma_filter_empty(s: Seq<SceneNode>, pred: spec_fn(SceneNode) -> bool)
    requires
        forall|i: int| 0 <= i < s.len() ==> !pred(#[trigger] s[i]),
    ensures
        s.filter(pred).len() == 0,
    decreases s.len(),
{
    reveal(Seq::filter);
    if s.len() > 0 {
        let t = s.drop_last();
        assert(forall|i: int| 0 <= i < t.len() ==> !pred(#[trigger] t[i]));
        lemma_filter_empty(t, pred);
        assert(!pred(s[s.len() - 1]));
    }
}

impl SceneGraph {
    /// Well-formed: identifiers strictly increase along the node list and
    /// all lie below the next free identifier.
    pub open spec fn wf(self) -> bool {
        &&& spec_ids_increasing(self.nodes@)
        &&& spec_ids_below(self.nodes@, self.next_id)
    }

    /// An empty scene graph.
    pub fn new() -> (g: SceneGraph)
        ensures
            g.wf(),
            g.nodes@.len() == 0,
            g.next_id == 0,
            g.clear_color is None,
    {
        SceneGraph { clear_color: None, next_id: 0, nodes: Vec::new() }
    }

    /// Creates a node and returns its fresh identifier.
    pub fn spawn(&mut self, node: Node) -> (id: u64)
        requires
            old(self).wf(),
            old(self).next_id < u64::MAX,
        ensures
            final(self).wf(),
            id == old(self).next_id,
            final(self).next_id == old(self).next_id + 1,
            final(self).nodes@ == old(self).nodes@.push(SceneNode { id, node }),
            final(self).clear_color == old(self).clear_color,
    {
        let id = self.next_id;
        self.next_id = self.next_id + 1;
        self.nodes.push(SceneNode { id, node });
        id
    }

    /// Enumerates the overlay batch: the identifiers of all overlay-tagged
    /// nodes, in creation order.
    pub fn overlay_ids(&self) -> (ids: Vec<u64>)
        ensures
            ids@.len() == spec_overlay_nodes(self.nodes@).len(),
            forall|k: int|
                0 <= k < ids@.len() ==> ids@[k] == spec_overlay_nodes(self.nodes@)[k].id,
    {
        let mut ids: Vec<u64> = Vec::new();
        let mut i: usize = 0;
        while i < self.nodes.len()
            invariant
                i <= self.nodes@.len(),
                ids@.len() == spec_overlay_nodes(self.nodes@.take(i as int)).len(),
                forall|k: int|
                    0 <= k < ids@.len() ==> ids@[k] == spec_overlay_nodes(
                        self.nodes@.take(i as int),
                    )[k].id,
            decreases self.nodes@.len() - i,
        {
            let sn = self.nodes[i];
            proof {
                lemma_filter_take_step(self.nodes@, spec_overlay_pred(), i as int);
            }
            if sn.node.overlay {
                ids.push(sn.id);
            }
            i = i + 1;
        }
        proof {
            assert(self.nodes@.take(self.nodes@.len() as int) =~= self.nodes@);
        }
        ids
    }
}

/// Tears the overlay down: removes every overlay-tagged node in one batch
/// and gives the background up.  The surviving nodes keep their order; on a
/// graph without overlay nodes the node list is left as it was, so a second
/// teardown changes nothing — afterwards the overlay batch is empty either
/// way.
pub fn destroy_splash_screen(g: &mut SceneGraph)
    requires
        old(g).wf(),
    ensures
        final(g).wf(),
        final(g).nodes@ == spec_kept_nodes(old(g).nodes@),
        final(g).next_id == old(g).next_id,
        final(g).clear_color is None,
        spec_overlay_nodes(final(g).nodes@).len() == 0,
        spec_kept_nodes(final(g).nodes@) == final(g).nodes@,
{
    let mut kept: Vec<SceneNode> = Vec::new();
    let mut i: usize = 0;
    while i < g.nodes.len()
        invariant
            i <= g.nodes@.len(),
            g.nodes@ == old(g).nodes@,
            g.next_id == old(g).next_id,
            g.clear_color == old(g).clear_color,
            kept@ == spec_kept_nodes(g.nodes@.take(i as int)),
        decreases g.nodes@.len() - i,
    {
        let sn = g.nodes[i];
        proof {
            lemma_filter_take_step(g.nodes@, spec_kept_pred(), i as int);
        }
        if !sn.node.overlay {
            kept.push(sn);
        }
        i = i + 1;
    }
    proof {
        assert(g.nodes@.take(g.nodes@.len() as int) =~= g.nodes@);
        lemma_filter_increasing(g.nodes@, spec_kept_pred());
        lemma_filter_below(g.nodes@, spec_kept_pred(), g.next_id);
        let out = spec_kept_nodes(old(g).nodes@);
        broadcast use vstd::seq_lib::group_filter_ensures;
        assert(forall|k: int| 0 <= k < out.len() ==> !(#[trigger] out[k]).node.overlay);
        lemma_filter_empty(out, spec_overlay_pred());
        lemma_filter_all(out, spec_kept_pred());
    }
    g.nodes = kept;
    g.clear_color = None;
}

} // verus!
