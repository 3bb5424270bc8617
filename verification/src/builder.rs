//! The scene builder: constructs the whole splash overlay in one batch from
//! the fixed layout constants and the glyph table, and the round-trip law
//! that ties it to the teardown.
//!
//! The batch is, in creation order: the bar's border box, the bar's inner
//! box, the fill rectangle (tagged as the progress bar), one rectangle per
//! glyph-table entry, and the loading symbol.  Every node carries the
//! overlay tag; construction uses only compile-time constants and cannot
//! fail.

use crate::frac::Frac;
use crate::glyphs::{glyph_cells, glyph_node, lemma_glyph_cells_wf, spec_glyph_cells, spec_glyph_node};
use crate::layout::{
    spec_background_color, spec_border_color, spec_fill_color, spec_text_color, spec_track_color,
    Color, BAR_TOTAL_HEIGHT, BAR_TOTAL_WIDTH, INNER_HEIGHT, INNER_WIDTH, SYMBOL_CENTER_Y,
    SYMBOL_SIZE,
};
use crate::scene::{
    lemma_filter_all, lemma_filter_empty, spec_kept_nodes, spec_kept_pred, spec_overlay_nodes,
    spec_overlay_pred, SceneGraph, SceneNode, Node,
};
use vstd::prelude::*;

verus! {

/// How many nodes the builder creates: the bar's three rectangles, one
/// rectangle per glyph-table entry, and the symbol.
pub const OVERLAY_NODE_COUNT: u64 = 26;

/// The bar's border: the outer box, behind everything else of the bar.
pub open spec fn spec_border_node() -> Node {
    Node {
        overlay: true,
        bar_fill: false,
        symbol: false,
        x: Frac { num: 0, den: 1 },
        y: Frac { num: 0, den: 1 },
        width: Frac { num: BAR_TOTAL_WIDTH, den: 1 },
        height: Frac { num: BAR_TOTAL_HEIGHT, den: 1 },
        rotation: Frac { num: 0, den: 1 },
        scale_x: Frac { num: 1, den: 1 },
        scale_y: Frac { num: 1, den: 1 },
        color: spec_border_color(),
    }
}

/// The bar's inner box: the empty track the fill grows along.
pub open spec fn spec_track_node() -> Node {
    Node {
        overlay: true,
        bar_fill: false,
        symbol: false,
        x: Frac { num: 0, den: 1 },
        y: Frac { num: 0, den: 1 },
        width: Frac { num: INNER_WIDTH, den: 1 },
        height: Frac { num: INNER_HEIGHT, den: 1 },
        rotation: Frac { num: 0, den: 1 },
        scale_x: Frac { num: 1, den: 1 },
        scale_y: Frac { num: 1, den: 1 },
        color: spec_track_color(),
    }
}

/// The fill rectangle, tagged as the progress bar: it starts empty, and the
/// per-frame updater gives it its width and offset.
pub open spec fn spec_fill_node() -> Node {
    Node {
        overlay: true,
        bar_fill: true,
        symbol: false,
        x: Frac { num: 0, den: 1 },
        y: Frac { num: 0, den: 1 },
        width: Frac { num: 0, den: 1 },
        height: Frac { num: INNER_HEIGHT, den: 1 },
        rotation: Frac { num: 0, den: 1 },
        scale_x: Frac { num: 1, den: 1 },
        scale_y: Frac { num: 1, den: 1 },
        color: spec_fill_color(),
    }
}

/// The loading symbol, above the bar: a square the animator rotates and
/// scales every frame.
pub open spec fn spec_symbol_node() -> Node {
    Node {
        overlay: true,
        bar_fill: false,
        symbol: true,
        x: Frac { num: 0, den: 1 },
        y: Frac { num: SYMBOL_CENTER_Y, den: 1 },
        width: Frac { num: SYMBOL_SIZE, den: 1 },
        height: Frac { num: SYMBOL_SIZE, den: 1 },
        rotation: Frac { num: 0, den: 1 },
        scale_x: Frac { num: 1, den: 1 },
        scale_y: Frac { num: 1, den: 1 },
        color: spec_text_color(),
    }
}

/// The glyph rectangles as scene nodes, with the identifiers they get when
/// the builder starts handing them out at `start + 3`.
pub open spec fn spec_glyph_scene_nodes(start: u64) -> Seq<SceneNode> {
    Seq::new(
        spec_glyph_cells().len(),
        |i: int| SceneNode { id: (start + 3 + i) as u64, node: spec_glyph_node(spec_glyph_cells()[i]) },
    )
}

/// Everything the builder creates, in creation order, with the identifiers
/// assigned from `start` on.
pub open spec fn spec_splash_nodes(start: u64) -> Seq<SceneNode> {
    seq![
        SceneNode { id: start, node: spec_border_node() },
        SceneNode { id: (start + 1) as u64, node: spec_track_node() },
        SceneNode { id: (start + 2) as u64, node: spec_fill_node() },
    ] + spec_glyph_scene_nodes(start) + seq![
        SceneNode { id: (start + 25) as u64, node: spec_symbol_node() },
    ]
}

/// Builds the whole overlay into the scene graph: appends exactly the batch
/// `spec_splash_nodes`, all of it overlay-tagged, and takes the background.
pub fn setup_splash_screen(g: &mut SceneGraph)
    requires
        old(g).wf(),
        old(g).next_id + OVERLAY_NODE_COUNT <= u64::MAX,
    ensures
        final(g).wf(),
        final(g).nodes@ == old(g).nodes@ + spec_splash_nodes(old(g).next_id),
        final(g).next_id == old(g).next_id + OVERLAY_NODE_COUNT,
        final(g).clear_color == Some(spec_background_color()),
        spec_overlay_nodes(final(g).nodes@).len() == spec_overlay_nodes(old(g).nodes@).len()
            + OVERLAY_NODE_COUNT,
        spec_kept_nodes(final(g).nodes@) == spec_kept_nodes(old(g).nodes@),
{
    let ghost start = g.next_id;
    let ghost batch = spec_splash_nodes(start);

    let _ = g.spawn(Node {
        overlay: true,
        bar_fill: false,
        symbol: false,
        x: Frac { num: 0, den: 1 },
        y: Frac { num: 0, den: 1 },
        width: Frac { num: BAR_TOTAL_WIDTH, den: 1 },
        height: Frac { num: BAR_TOTAL_HEIGHT, den: 1 },
        rotation: Frac { num: 0, den: 1 },
        scale_x: Frac { num: 1, den: 1 },
        scale_y: Frac { num: 1, den: 1 },
        color: Color { r: 60, g: 60, b: 56 },
    });
    let _ = g.spawn(Node {
        overlay: true,
        bar_fill: false,
        symbol: false,
        x: Frac { num: 0, den: 1 },
        y: Frac { num: 0, den: 1 },
        width: Frac { num: INNER_WIDTH, den: 1 },
        height: Frac { num: INNER_HEIGHT, den: 1 },
        rotation: Frac { num: 0, den: 1 },
        scale_x: Frac { num: 1, den: 1 },
        scale_y: Frac { num: 1, den: 1 },
        color: Color { r: 0, g: 0, b: 0 },
    });
    let _ = g.spawn(Node {
        overlay: true,
        bar_fill: true,
        symbol: false,
        x: Frac { num: 0, den: 1 },
        y: Frac { num: 0, den: 1 },
        width: Frac { num: 0, den: 1 },
        height: Frac { num: INNER_HEIGHT, den: 1 },
        rotation: Frac { num: 0, den: 1 },
        scale_x: Frac { num: 1, den: 1 },
        scale_y: Frac { num: 1, den: 1 },
        color: Color { r: 50, g: 80, b: 20 },
    });
    proof {
        assert(g.nodes@ =~= old(g).nodes@ + batch.take(3));
    }

    let cells = glyph_cells();
    proof {
        lemma_glyph_cells_wf();
    }
    let mut i: usize = 0;
    while i < cells.len()
        invariant
            cells@ == spec_glyph_cells(),
            i <= cells@.len(),
            g.wf(),
            start == old(g).next_id,
            batch == spec_splash_nodes(start),
            start + OVERLAY_NODE_COUNT <= u64::MAX,
            g.next_id == start + 3 + i,
            g.clear_color == old(g).clear_color,
            g.nodes@ == old(g).nodes@ + batch.take(3 + i as int),
        decreases cells@.len() - i,
    {
        let c = cells[i];
        assert(c.wf());
        let n = glyph_node(c);
        let _ = g.spawn(n);
        proof {
            assert(batch[3 + i as int] == SceneNode { id: (start + 3 + i) as u64, node: spec_glyph_node(c) });
            assert(batch.take(3 + i + 1) =~= batch.take(3 + i as int).push(batch[3 + i as int]));
        }
        i = i + 1;
    }

    let _ = g.spawn(Node {
        overlay: true,
        bar_fill: false,
        symbol: true,
        x: Frac { num: 0, den: 1 },
        y: Frac { num: SYMBOL_CENTER_Y, den: 1 },
        width: Frac { num: SYMBOL_SIZE, den: 1 },
        height: Frac { num: SYMBOL_SIZE, den: 1 },
        rotation: Frac { num: 0, den: 1 },
        scale_x: Frac { num: 1, den: 1 },
        scale_y: Frac { num: 1, den: 1 },
        color: Color { r: 80, g: 80, b: 78 },
    });
    g.clear_color = Some(Color { r: 20, g: 20, b: 20 });
    proof {
        assert(batch.take(26) =~= batch);
        assert(g.nodes@ =~= old(g).nodes@ + batch);
        lemma_splash_batch_filters(start);
        Seq::filter_distributes_over_add(old(g).nodes@, batch, spec_overlay_pred());
        Seq::filter_distributes_over_add(old(g).nodes@, batch, spec_kept_pred());
        assert(spec_kept_nodes(old(g).nodes@) + spec_kept_nodes(batch) =~= spec_kept_nodes(
            old(g).nodes@,
        ));
    }
}

/// Every node of the builder's batch carries the overlay tag.
proof fn lemma_splash_batch_overlay(start: u64)
    ensures
        forall|i: int|
            0 <= i < spec_splash_nodes(start).len() ==> (#[trigger] spec_splash_nodes(
                start,
            )[i]).node.overlay,
{
    let batch = spec_splash_nodes(start);
    assert forall|i: int| 0 <= i < batch.len() implies batch[i].node.overlay by {
        if 3 <= i < 25 {
            assert(batch[i] == spec_glyph_scene_nodes(start)[i - 3]);
        }
    }
}

/// Law: the build-then-teardown round trip.  Appending the builder's batch
/// to any scene adds exactly `OVERLAY_NODE_COUNT` nodes to the overlay
/// query, and a teardown afterwards leaves exactly the nodes that were
/// there before — on a scene that held no overlay nodes, the teardown
/// restores the node list as it was, and the overlay query is empty again.
pub proof fn lemma_build_teardown_round_trip(s: Seq<SceneNode>, start: u64)
    ensures
        spec_overlay_nodes(s + spec_splash_nodes(start)).len() == spec_overlay_nodes(s).len()
            + OVERLAY_NODE_COUNT,
        spec_kept_nodes(s + spec_splash_nodes(start)) == spec_kept_nodes(s),
        spec_overlay_nodes(s).len() == 0 ==> spec_kept_nodes(s + spec_splash_nodes(start)) == s,
{
    let batch = spec_splash_nodes(start);
    lemma_splash_batch_filters(start);
    Seq::filter_distributes_over_add(s, batch, spec_overlay_pred());
    Seq::filter_distributes_over_add(s, batch, spec_kept_pred());
    assert(spec_kept_nodes(s) + spec_kept_nodes(batch) =~= spec_kept_nodes(s));
    if spec_overlay_nodes(s).len() == 0 {
        lemma_no_overlay_keeps_all(s);
    }
}

/// Filtering the builder's batch: the overlay query keeps all of it, a
/// teardown keeps none of it.
#[verifier::spinoff_prover]
#[verifier::rlimit(40)]
proof fn lemma_splash_batch_filters(start: u64)
    ensures
        spec_overlay_nodes(spec_splash_nodes(start)) == spec_splash_nodes(start),
        spec_overlay_nodes(spec_splash_nodes(start)).len() == OVERLAY_NODE_COUNT,
        spec_kept_nodes(spec_splash_nodes(start)).len() == 0,
{
    let batch = spec_splash_nodes(start);
    lemma_splash_batch_overlay(start);
    lemma_filter_all(batch, spec_overlay_pred());
    lemma_filter_empty(batch, spec_kept_pred());
}

/// A scene whose overlay query is empty is left whole by a teardown.
proof fn lemma_no_overlay_keeps_all(s: Seq<SceneNode>)
    requires
        spec_overlay_nodes(s).len() == 0,
    ensures
        spec_kept_nodes(s) == s,
    decreases s.len(),
{
    reveal(Seq::filter);
    if s.len() > 0 {
        let t = s.drop_last();
        assert(!s.last().node.overlay) by {
            if s.last().node.overlay {
                assert(spec_overlay_nodes(s) == spec_overlay_nodes(t).push(s.last()));
            }
        }
        lemma_no_overlay_keeps_all(t);
        assert(spec_kept_nodes(s) == spec_kept_nodes(t).push(s.last()));
        assert(t.push(s.last()) =~= s);
    }
}

} // verus!
