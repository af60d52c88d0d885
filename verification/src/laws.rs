//! The laws the editor obeys, proved over the same models its functions
//! promise in their contracts: undoing restores the previous state, and
//! redoing restores the undone one.

use vstd::prelude::*;

use crate::components::{EdgeId, VertexId};
use crate::graph::{cascade_edges, edge_incident, wf_view, GraphView};
use crate::mutator::{
    apply_mutation, mutation_enabled, mutation_inverse, MutationView,
};
use crate::undo_redo::{
    apply_redo, apply_undo, captured_inverse, redo_applies, undo_applies, ActionView,
};

verus! {

/// Every handle in the model leaves room above it, as all handles
/// assigned by the store do.
pub open spec fn handles_representable(g: GraphView) -> bool {
    &&& forall|v: VertexId| #[trigger] g.vertices.dom().contains(v) ==> v.0 < u64::MAX
    &&& forall|e: EdgeId| #[trigger] g.edges.dom().contains(e) ==> e.0 < u64::MAX
}

/// The handles a mutation assigns leave room above them, as freshly
/// assigned handles do.
pub open spec fn mutation_ids_representable(m: MutationView) -> bool {
    match m {
        MutationView::Spawn { vertex, .. } => vertex.0 < u64::MAX,
        MutationView::Connect { edge, .. } => edge.0 < u64::MAX,
        MutationView::Insert { vertex, second_edge, .. } => vertex.0 < u64::MAX && second_edge.0
            < u64::MAX,
        _ => true,
    }
}

/// Whether undoing this mutation restores the state exactly.  The one
/// exception is deleting a vertex that still has incident edges: the
/// recorded inverse restores the vertex but not the cascaded edges.
pub open spec fn mutation_reversible(g: GraphView, m: MutationView) -> bool {
    match m {
        MutationView::Delete { vertex } => forall|e: EdgeId|
            #[trigger] g.edges.dom().contains(e) ==> !edge_incident(g.edges[e], vertex),
        _ => true,
    }
}

/// A mutation keeps the model well formed and its handles representable.
pub proof fn lemma_mutation_preserves_wf(g: GraphView, m: MutationView)
    requires
        wf_view(g),
        handles_representable(g),
        mutation_enabled(g, m),
        mutation_ids_representable(m),
    ensures
        wf_view(apply_mutation(g, m)),
        handles_representable(apply_mutation(g, m)),
{
    let g1 = apply_mutation(g, m);
    match m {
        MutationView::Spawn { vertex, position } => {},
        MutationView::Delete { vertex } => {},
        MutationView::Rename { vertex, label } => {},
        MutationView::Move { vertex, position } => {},
        MutationView::Connect { edge, from, to } => {},
        MutationView::DeleteEdge { edge } => {},
        MutationView::Insert { vertex, edge, second_edge, position } => {},
    }
}

/// Undoing the exact inverse a mutation recorded restores the state the
/// mutation found, provided the mutation was reversible.
pub proof fn lemma_mutation_undo_restores(g: GraphView, m: MutationView)
    requires
        wf_view(g),
        handles_representable(g),
        mutation_enabled(g, m),
        mutation_ids_representable(m),
        mutation_reversible(g, m),
    ensures
        undo_applies(apply_mutation(g, m), mutation_inverse(g, m)),
        apply_undo(apply_mutation(g, m), mutation_inverse(g, m)) == g,
{
    let g1 = apply_mutation(g, m);
    let inv = mutation_inverse(g, m);
    match m {
        MutationView::Spawn { vertex, position } => {
            assert(g1.vertices.remove(vertex) =~= g.vertices);
            assert(cascade_edges(g1.edges, vertex) =~= g.edges);
            assert(apply_undo(g1, inv) =~= g);
        },
        MutationView::Delete { vertex } => {
            assert(cascade_edges(g.edges, vertex) =~= g.edges);
            assert(g1.vertices.insert(
                vertex,
                crate::graph::VertexView {
                    position: g.vertices[vertex].position,
                    label: g.vertices[vertex].label,
                },
            ) =~= g.vertices);
            assert(apply_undo(g1, inv) =~= g);
        },
        MutationView::Rename { vertex, label } => {
            assert(apply_undo(g1, inv).vertices =~= g.vertices);
            assert(apply_undo(g1, inv) =~= g);
        },
        MutationView::Move { vertex, position } => {
            assert(apply_undo(g1, inv).vertices =~= g.vertices);
            assert(apply_undo(g1, inv) =~= g);
        },
        MutationView::Connect { edge, from, to } => {
            assert(g1.edges.remove(edge) =~= g.edges);
            assert(apply_undo(g1, inv) =~= g);
        },
        MutationView::DeleteEdge { edge } => {
            assert(apply_undo(g1, inv).edges =~= g.edges);
            assert(apply_undo(g1, inv) =~= g);
        },
        MutationView::Insert { vertex, edge, second_edge, position } => {
            let from = g.edges[edge].from;
            let to = g.edges[edge].to;
            assert(from != vertex && to != vertex);
            let restored = GraphView {
                vertices: g1.vertices,
                edges: g1.edges.insert(edge, crate::components::DirectedEdge { from, to }),
            };
            assert(apply_undo(g1, inv).vertices =~= g.vertices);
            assert(cascade_edges(restored.edges, vertex) =~= g.edges);
            assert(apply_undo(g1, inv) =~= g);
        },
    }
}

/// Redoing what an undo captured restores the state the undo found.
/// Together with the contracts of `undo` and `redo` this is the
/// mutate–undo–redo round trip: the state after the redo equals the
/// state immediately after the original mutation.
pub proof fn lemma_mutate_undo_redo(g: GraphView, m: MutationView)
    requires
        wf_view(g),
        handles_representable(g),
        mutation_enabled(g, m),
        mutation_ids_representable(m),
    ensures
        ({
            let g1 = apply_mutation(g, m);
            let inv = mutation_inverse(g, m);
            let g2 = apply_undo(g1, inv);
            let back = captured_inverse(g1, inv);
            &&& undo_applies(g1, inv)
            &&& redo_applies(g2, back)
            &&& apply_redo(g2, back) == g1
        }),
{
    let g1 = apply_mutation(g, m);
    let inv = mutation_inverse(g, m);
    let g2 = apply_undo(g1, inv);
    let back = captured_inverse(g1, inv);
    match m {
        MutationView::Spawn { vertex, position } => {
            assert(g2.vertices =~= g.vertices);
            assert(g2.edges =~= g.edges);
            assert(apply_redo(g2, back) =~= g1);
        },
        MutationView::Delete { vertex } => {
            assert(apply_redo(g2, back).vertices =~= g1.vertices);
            assert(cascade_edges(g2.edges, vertex) =~= g1.edges);
            assert(apply_redo(g2, back) =~= g1);
        },
        MutationView::Rename { vertex, label } => {
            assert(apply_redo(g2, back).vertices =~= g1.vertices);
            assert(apply_redo(g2, back) =~= g1);
        },
        MutationView::Move { vertex, position } => {
            assert(apply_redo(g2, back).vertices =~= g1.vertices);
            assert(apply_redo(g2, back) =~= g1);
        },
        MutationView::Connect { edge, from, to } => {
            assert(g2.edges =~= g.edges);
            assert(apply_redo(g2, back) =~= g1);
        },
        MutationView::DeleteEdge { edge } => {
            assert(g2.edges =~= g.edges.insert(edge, g.edges[edge]));
            assert(g2.edges =~= g.edges);
            assert(apply_redo(g2, back) =~= g1);
        },
        MutationView::Insert { vertex, edge, second_edge, position } => {
            let from = g.edges[edge].from;
            let to = g.edges[edge].to;
            assert(g2.vertices =~= g.vertices);
            assert(g2.edges =~= g.edges);
            assert(apply_redo(g2, back).edges =~= g1.edges);
            assert(apply_redo(g2, back) =~= g1);
        },
    }
}

/// Each mutation in the sequence is enabled and reversible in the state
/// the preceding ones produce.
pub open spec fn mutations_ok(g: GraphView, ms: Seq<MutationView>) -> bool
    decreases ms.len(),
{
    ms.len() == 0 || {
        let m = ms.first();
        &&& mutation_enabled(g, m)
        &&& mutation_ids_representable(m)
        &&& mutation_reversible(g, m)
        &&& mutations_ok(apply_mutation(g, m), ms.drop_first())
    }
}

/// The state after applying the mutations in order.
pub open spec fn apply_mutations(g: GraphView, ms: Seq<MutationView>) -> GraphView
    decreases ms.len(),
{
    if ms.len() == 0 {
        g
    } else {
        apply_mutations(apply_mutation(g, ms.first()), ms.drop_first())
    }
}

/// The inverse entries the mutator records along the way, oldest first:
/// exactly what it appends to the undo history.
pub open spec fn recorded_inverses(g: GraphView, ms: Seq<MutationView>) -> Seq<ActionView>
    decreases ms.len(),
{
    if ms.len() == 0 {
        Seq::empty()
    } else {
        seq![mutation_inverse(g, ms.first())] + recorded_inverses(
            apply_mutation(g, ms.first()),
            ms.drop_first(),
        )
    }
}

/// The state after popping and applying the entries newest first, as
/// repeated calls of `undo` do.
pub open spec fn run_undos(g: GraphView, acts: Seq<ActionView>) -> GraphView
    decreases acts.len(),
{
    if acts.len() == 0 {
        g
    } else {
        run_undos(apply_undo(g, acts.last()), acts.drop_last())
    }
}

/// Every popped entry finds its handles valid, so none is dropped.
pub open spec fn undos_all_apply(g: GraphView, acts: Seq<ActionView>) -> bool
    decreases acts.len(),
{
    acts.len() == 0 || (undo_applies(g, acts.last()) && undos_all_apply(
        apply_undo(g, acts.last()),
        acts.drop_last(),
    ))
}

proof fn lemma_run_undos_concat(g: GraphView, a: Seq<ActionView>, b: Seq<ActionView>)
    ensures
        run_undos(g, a + b) == run_undos(run_undos(g, b), a),
        undos_all_apply(g, a + b) == (undos_all_apply(g, b) && undos_all_apply(
            run_undos(g, b),
            a,
        )),
    decreases b.len(),
{
    if b.len() == 0 {
        assert(a + b =~= a);
    } else {
        assert((a + b).last() == b.last());
        assert((a + b).drop_last() =~= a + b.drop_last());
        lemma_run_undos_concat(apply_undo(g, b.last()), a, b.drop_last());
    }
}

/// Any run of reversible manual mutations, followed by as many undos,
/// leaves the graph exactly as it was: same vertices with the same
/// positions and labels, same edges with the same endpoints, under the
/// same handles.
pub proof fn lemma_mutations_then_undos_restore(g0: GraphView, ms: Seq<MutationView>)
    requires
        wf_view(g0),
        handles_representable(g0),
        mutations_ok(g0, ms),
    ensures
        undos_all_apply(apply_mutations(g0, ms), recorded_inverses(g0, ms)),
        run_undos(apply_mutations(g0, ms), recorded_inverses(g0, ms)) == g0,
    decreases ms.len(),
{
    if ms.len() > 0 {
        let m = ms.first();
        let g1 = apply_mutation(g0, m);
        lemma_mutation_preserves_wf(g0, m);
        lemma_mutation_undo_restores(g0, m);
        lemma_mutations_then_undos_restore(g1, ms.drop_first());
        let inv0 = mutation_inverse(g0, m);
        let rest = recorded_inverses(g1, ms.drop_first());
        let gn = apply_mutations(g0, ms);
        assert(gn == apply_mutations(g1, ms.drop_first()));
        lemma_run_undos_concat(gn, seq![inv0], rest);
        assert(recorded_inverses(g0, ms) == seq![inv0] + rest);
        let single = seq![inv0];
        assert(single.len() == 1);
        assert(single.last() == inv0);
        assert(single.drop_last() =~= Seq::<ActionView>::empty());
        assert(run_undos(apply_undo(g1, inv0), single.drop_last()) == apply_undo(g1, inv0));
        assert(run_undos(g1, single) == apply_undo(g1, inv0));
        assert(undos_all_apply(apply_undo(g1, inv0), single.drop_last()));
        assert(undos_all_apply(g1, single));
        assert(apply_undo(g1, inv0) == g0);
    }
}

} // verus!
