//! The graph mutator: each intent becomes one forward mutation of the
//! store together with one recorded inverse action, pushed as a manual
//! record (which clears the redo history).
//!
//! An intent whose handle no longer exists is silently dropped: the
//! operation reports that nothing happened and leaves every part of the
//! state alone.

use vstd::prelude::*;

use crate::components::{ClickTracker, DirectedEdge, EdgeId, Position, VertexId};
use crate::graph::{
    connect_effect, delete_edge_effect, delete_vertex_effect, move_effect, rename_effect,
    spawn_effect, split_effect, Graph, GraphView,
};
use crate::resources::UndoRedoStack;
use crate::undo_redo::{
    evict_effect, record_push, ActionView, EdgeDeletionAction, EdgeDrawingAction, UndoAction,
    VertexDeletionAction, VertexInsertionAction, VertexMoveAction, VertexRenameAction,
    VertexSpawnAction,
};

verus! {

/// One manual mutation, described with the handles it touched or
/// assigned.  This is the mathematical record of a forward step.
pub enum MutationView {
    Spawn { vertex: VertexId, position: Position },
    Delete { vertex: VertexId },
    Rename { vertex: VertexId, label: Seq<char> },
    Move { vertex: VertexId, position: Position },
    Connect { edge: EdgeId, from: VertexId, to: VertexId },
    DeleteEdge { edge: EdgeId },
    Insert { vertex: VertexId, edge: EdgeId, second_edge: EdgeId, position: Position },
}

/// Whether the mutation's handles are live and its assigned handles
/// fresh: exactly the states in which the mutator applies it.
pub open spec fn mutation_enabled(g: GraphView, m: MutationView) -> bool {
    match m {
        MutationView::Spawn { vertex, .. } => !g.vertices.dom().contains(vertex),
        MutationView::Delete { vertex } => g.vertices.dom().contains(vertex),
        MutationView::Rename { vertex, .. } => g.vertices.dom().contains(vertex),
        MutationView::Move { vertex, .. } => g.vertices.dom().contains(vertex),
        MutationView::Connect { edge, from, to } => !g.edges.dom().contains(edge)
            && g.vertices.dom().contains(from) && g.vertices.dom().contains(to),
        MutationView::DeleteEdge { edge } => g.edges.dom().contains(edge),
        MutationView::Insert { vertex, edge, second_edge, .. } => g.edges.dom().contains(edge)
            && !g.vertices.dom().contains(vertex) && !g.edges.dom().contains(second_edge) && edge
            != second_edge,
    }
}

/// The forward effect of a mutation on the model.
pub open spec fn apply_mutation(g: GraphView, m: MutationView) -> GraphView {
    match m {
        MutationView::Spawn { vertex, position } => spawn_effect(g, vertex, position, Seq::empty()),
        MutationView::Delete { vertex } => delete_vertex_effect(g, vertex),
        MutationView::Rename { vertex, label } => rename_effect(g, vertex, label),
        MutationView::Move { vertex, position } => move_effect(g, vertex, position),
        MutationView::Connect { edge, from, to } => connect_effect(g, edge, from, to),
        MutationView::DeleteEdge { edge } => delete_edge_effect(g, edge),
        MutationView::Insert { vertex, edge, second_edge, position } => split_effect(
            g,
            edge,
            vertex,
            second_edge,
            position,
        ),
    }
}

/// The inverse entry the mutator records for a mutation, built from the
/// state the mutation is about to overwrite.
pub open spec fn mutation_inverse(g: GraphView, m: MutationView) -> ActionView {
    match m {
        MutationView::Spawn { vertex, position } => ActionView::Spawn { vertex, position },
        MutationView::Delete { vertex } => ActionView::Deletion {
            vertex,
            position: g.vertices[vertex].position,
            label: g.vertices[vertex].label,
        },
        MutationView::Rename { vertex, .. } => ActionView::Rename {
            vertex,
            label: g.vertices[vertex].label,
        },
        MutationView::Move { vertex, .. } => ActionView::Move {
            vertex,
            position: g.vertices[vertex].position,
        },
        MutationView::Connect { edge, from, to } => ActionView::EdgeDrawing { edge, from, to },
        MutationView::DeleteEdge { edge } => ActionView::EdgeDeletion {
            edge,
            from: g.edges[edge].from,
            to: g.edges[edge].to,
        },
        MutationView::Insert { vertex, edge, second_edge, position } => ActionView::Insertion {
            vertex,
            position,
            edge,
            second_edge,
            from: g.edges[edge].from,
            to: g.edges[edge].to,
        },
    }
}

/// What a recording mutator call leaves behind: the mutation applied,
/// then the eviction that recording at capacity may force.
pub open spec fn recorded_graph(
    g: GraphView,
    m: MutationView,
    undo: Seq<ActionView>,
    cap: int,
) -> GraphView {
    evict_effect(apply_mutation(g, m), undo, cap)
}

/// What the undo history holds after recording the mutation's inverse.
pub open spec fn recorded_undo(
    g: GraphView,
    m: MutationView,
    undo: Seq<ActionView>,
    cap: int,
) -> Seq<ActionView> {
    record_push(undo, mutation_inverse(g, m), cap)
}

/// Create a vertex with an empty label at `position` and record its
/// spawn inverse.
pub fn spawn_vertex(graph: &mut Graph, undo_redo: &mut UndoRedoStack, position: Position) -> (v:
    VertexId)
    requires
        old(graph).wf(),
        old(undo_redo).wf(),
        old(graph).can_alloc_vertex(),
    ensures
        final(graph).wf(),
        final(undo_redo).wf(),
        final(undo_redo).capacity() == old(undo_redo).capacity(),
        !old(graph)@.vertices.dom().contains(v),
        ({
            let m = MutationView::Spawn { vertex: v, position };
            &&& mutation_enabled(old(graph)@, m)
            &&& final(graph)@ == recorded_graph(
                old(graph)@,
                m,
                old(undo_redo).undo_view(),
                old(undo_redo).capacity(),
            )
            &&& final(undo_redo).undo_view() == recorded_undo(
                old(graph)@,
                m,
                old(undo_redo).undo_view(),
                old(undo_redo).capacity(),
            )
        }),
        final(undo_redo).redo_view() == Seq::<ActionView>::empty(),
        v.0 < u64::MAX,
        final(graph)@.vertices.dom().contains(v) ==> final(graph).tracker_of(v)
            == ClickTracker::initial(),
        final(graph).vertex_alloc_margin() == old(graph).vertex_alloc_margin() - 1,
        final(graph).edge_alloc_margin() == old(graph).edge_alloc_margin(),
{
    let v = graph.insert_fresh_vertex(position, String::new());
    proof {
        assert(graph@ =~= apply_mutation(old(graph)@, MutationView::Spawn { vertex: v, position }));
    }
    undo_redo.push_undo(
        UndoAction::UndoVertexSpawn(VertexSpawnAction { entity: v, position }),
        graph,
    );
    v
}

/// Delete a vertex; its incident edges cascade away.  The recorded
/// inverse restores the vertex alone, with its last position and label —
/// the cascaded edges are not individually undoable.
pub fn delete_vertex(graph: &mut Graph, undo_redo: &mut UndoRedoStack, v: VertexId) -> (applied:
    bool)
    requires
        old(graph).wf(),
        old(undo_redo).wf(),
    ensures
        final(graph).wf(),
        final(undo_redo).wf(),
        final(undo_redo).capacity() == old(undo_redo).capacity(),
        applied == old(graph)@.vertices.dom().contains(v),
        applied ==> ({
            let m = MutationView::Delete { vertex: v };
            &&& final(graph)@ == recorded_graph(
                old(graph)@,
                m,
                old(undo_redo).undo_view(),
                old(undo_redo).capacity(),
            )
            &&& final(undo_redo).undo_view() == recorded_undo(
                old(graph)@,
                m,
                old(undo_redo).undo_view(),
                old(undo_redo).capacity(),
            )
            &&& final(undo_redo).redo_view() == Seq::<ActionView>::empty()
        }),
        !applied ==> *final(graph) == *old(graph) && *final(undo_redo) == *old(undo_redo),
        final(graph).vertex_alloc_margin() == old(graph).vertex_alloc_margin(),
        final(graph).edge_alloc_margin() == old(graph).edge_alloc_margin(),
{
    let position = match graph.vertex_position(v) {
        Some(p) => p,
        None => {
            return false;
        },
    };
    let label = graph.vertex_label(v).unwrap();
    graph.remove_vertex_cascade(v);
    proof {
        assert(graph@ =~= apply_mutation(old(graph)@, MutationView::Delete { vertex: v }));
    }
    undo_redo.push_undo(
        UndoAction::UndoVertexDeletion(
            VertexDeletionAction { entity: v, position, vertex_label: label },
        ),
        graph,
    );
    true
}

/// Set a vertex's label.  A manual rename records the old label as its
/// inverse; a replayed one leaves the ledger to its caller.
pub fn rename_vertex(
    graph: &mut Graph,
    undo_redo: &mut UndoRedoStack,
    v: VertexId,
    new_label: String,
    manual: bool,
) -> (applied: bool)
    requires
        old(graph).wf(),
        old(undo_redo).wf(),
    ensures
        final(graph).wf(),
        final(undo_redo).wf(),
        final(undo_redo).capacity() == old(undo_redo).capacity(),
        applied == old(graph)@.vertices.dom().contains(v),
        applied && manual ==> ({
            let m = MutationView::Rename { vertex: v, label: new_label@ };
            &&& final(graph)@ == recorded_graph(
                old(graph)@,
                m,
                old(undo_redo).undo_view(),
                old(undo_redo).capacity(),
            )
            &&& final(undo_redo).undo_view() == recorded_undo(
                old(graph)@,
                m,
                old(undo_redo).undo_view(),
                old(undo_redo).capacity(),
            )
            &&& final(undo_redo).redo_view() == Seq::<ActionView>::empty()
        }),
        applied && !manual ==> final(graph)@ == rename_effect(old(graph)@, v, new_label@)
            && *final(undo_redo) == *old(undo_redo),
        !applied ==> *final(graph) == *old(graph) && *final(undo_redo) == *old(undo_redo),
        final(graph).vertex_alloc_margin() == old(graph).vertex_alloc_margin(),
        final(graph).edge_alloc_margin() == old(graph).edge_alloc_margin(),
{
    let old_label = match graph.vertex_label(v) {
        Some(l) => l,
        None => {
            return false;
        },
    };
    graph.set_vertex_label(v, new_label);
    proof {
        assert(graph@ =~= rename_effect(old(graph)@, v, new_label@));
    }
    if manual {
        undo_redo.push_undo(
            UndoAction::UndoVertexRename(VertexRenameAction { entity: v, name: old_label }),
            graph,
        );
    }
    true
}

/// Move a vertex.  Every move is its own separately undoable step; two
/// consecutive moves are never coalesced.
pub fn move_vertex(
    graph: &mut Graph,
    undo_redo: &mut UndoRedoStack,
    v: VertexId,
    position: Position,
) -> (applied: bool)
    requires
        old(graph).wf(),
        old(undo_redo).wf(),
    ensures
        final(graph).wf(),
        final(undo_redo).wf(),
        final(undo_redo).capacity() == old(undo_redo).capacity(),
        applied == old(graph)@.vertices.dom().contains(v),
        applied ==> ({
            let m = MutationView::Move { vertex: v, position };
            &&& final(graph)@ == recorded_graph(
                old(graph)@,
                m,
                old(undo_redo).undo_view(),
                old(undo_redo).capacity(),
            )
            &&& final(undo_redo).undo_view() == recorded_undo(
                old(graph)@,
                m,
                old(undo_redo).undo_view(),
                old(undo_redo).capacity(),
            )
            &&& final(undo_redo).redo_view() == Seq::<ActionView>::empty()
        }),
        !applied ==> *final(graph) == *old(graph) && *final(undo_redo) == *old(undo_redo),
        final(graph).vertex_alloc_margin() == old(graph).vertex_alloc_margin(),
        final(graph).edge_alloc_margin() == old(graph).edge_alloc_margin(),
{
    let old_position = match graph.vertex_position(v) {
        Some(p) => p,
        None => {
            return false;
        },
    };
    graph.set_vertex_position(v, position);
    proof {
        assert(graph@ =~= apply_mutation(
            old(graph)@,
            MutationView::Move { vertex: v, position },
        ));
    }
    undo_redo.push_undo(
        UndoAction::UndoVertexMoveAction(VertexMoveAction { entity: v, position: old_position }),
        graph,
    );
    true
}

/// Draw an edge from one vertex to another and record its inverse.
pub fn connect_vertices(
    graph: &mut Graph,
    undo_redo: &mut UndoRedoStack,
    from: VertexId,
    to: VertexId,
) -> (r: Option<EdgeId>)
    requires
        old(graph).wf(),
        old(undo_redo).wf(),
        old(graph).can_alloc_edge(),
    ensures
        final(graph).wf(),
        final(undo_redo).wf(),
        final(undo_redo).capacity() == old(undo_redo).capacity(),
        (r is Some) == (old(graph)@.vertices.dom().contains(from) && old(graph)@.vertices.dom().contains(to)),
        match r {
            Some(e) => {
                let m = MutationView::Connect { edge: e, from, to };
                &&& !old(graph)@.edges.dom().contains(e)
                &&& e.0 < u64::MAX
                &&& final(graph)@ == recorded_graph(
                    old(graph)@,
                    m,
                    old(undo_redo).undo_view(),
                    old(undo_redo).capacity(),
                )
                &&& final(undo_redo).undo_view() == recorded_undo(
                    old(graph)@,
                    m,
                    old(undo_redo).undo_view(),
                    old(undo_redo).capacity(),
                )
                &&& final(undo_redo).redo_view() == Seq::<ActionView>::empty()
            },
            None => *final(graph) == *old(graph) && *final(undo_redo) == *old(undo_redo),
        },
        final(graph).vertex_alloc_margin() == old(graph).vertex_alloc_margin(),
        (r is Some) ==> final(graph).edge_alloc_margin() == old(graph).edge_alloc_margin() - 1,
        (r is None) ==> final(graph).edge_alloc_margin() == old(graph).edge_alloc_margin(),
{
    if !graph.has_vertex(from) {
        return None;
    }
    if !graph.has_vertex(to) {
        return None;
    }
    let e = graph.insert_fresh_edge(from, to);
    proof {
        assert(graph@ =~= apply_mutation(
            old(graph)@,
            MutationView::Connect { edge: e, from, to },
        ));
    }
    undo_redo.push_undo(
        UndoAction::UndoEdgeDrawingAction(EdgeDrawingAction { entity: e, from, to }),
        graph,
    );
    Some(e)
}

/// Delete an edge and record its inverse; only that edge goes away.
pub fn delete_edge(graph: &mut Graph, undo_redo: &mut UndoRedoStack, e: EdgeId) -> (applied: bool)
    requires
        old(graph).wf(),
        old(undo_redo).wf(),
    ensures
        final(graph).wf(),
        final(undo_redo).wf(),
        final(undo_redo).capacity() == old(undo_redo).capacity(),
        applied == old(graph)@.edges.dom().contains(e),
        applied ==> ({
            let m = MutationView::DeleteEdge { edge: e };
            &&& final(graph)@ == recorded_graph(
                old(graph)@,
                m,
                old(undo_redo).undo_view(),
                old(undo_redo).capacity(),
            )
            &&& final(undo_redo).undo_view() == recorded_undo(
                old(graph)@,
                m,
                old(undo_redo).undo_view(),
                old(undo_redo).capacity(),
            )
            &&& final(undo_redo).redo_view() == Seq::<ActionView>::empty()
        }),
        !applied ==> *final(graph) == *old(graph) && *final(undo_redo) == *old(undo_redo),
        final(graph).vertex_alloc_margin() == old(graph).vertex_alloc_margin(),
        final(graph).edge_alloc_margin() == old(graph).edge_alloc_margin(),
{
    let endpoints = match graph.edge_endpoints(e) {
        Some(d) => d,
        None => {
            return false;
        },
    };
    graph.remove_edge(e);
    proof {
        assert(graph@ =~= apply_mutation(old(graph)@, MutationView::DeleteEdge { edge: e }));
    }
    undo_redo.push_undo(
        UndoAction::UndoEdgeDeletionAction(
            EdgeDeletionAction { entity: e, from: endpoints.from, to: endpoints.to },
        ),
        graph,
    );
    true
}

/// Split an edge by a new vertex at `world_position`: the edge keeps its
/// source and now ends at the new vertex, and a second edge continues to
/// the old target.  One recorded inverse covers all three changes.
pub fn insert_vertex_on_edge(
    graph: &mut Graph,
    undo_redo: &mut UndoRedoStack,
    e: EdgeId,
    world_position: Position,
) -> (r: Option<(VertexId, EdgeId)>)
    requires
        old(graph).wf(),
        old(undo_redo).wf(),
        old(graph).can_alloc_vertex(),
        old(graph).can_alloc_edge(),
    ensures
        final(graph).wf(),
        final(undo_redo).wf(),
        final(undo_redo).capacity() == old(undo_redo).capacity(),
        (r is Some) == old(graph)@.edges.dom().contains(e),
        match r {
            Some(pair) => {
                let m = MutationView::Insert {
                    vertex: pair.0,
                    edge: e,
                    second_edge: pair.1,
                    position: world_position,
                };
                &&& !old(graph)@.vertices.dom().contains(pair.0)
                &&& !old(graph)@.edges.dom().contains(pair.1)
                &&& pair.0.0 < u64::MAX
                &&& pair.1.0 < u64::MAX
                &&& final(graph)@ == recorded_graph(
                    old(graph)@,
                    m,
                    old(undo_redo).undo_view(),
                    old(undo_redo).capacity(),
                )
                &&& final(undo_redo).undo_view() == recorded_undo(
                    old(graph)@,
                    m,
                    old(undo_redo).undo_view(),
                    old(undo_redo).capacity(),
                )
                &&& final(undo_redo).redo_view() == Seq::<ActionView>::empty()
            },
            None => *final(graph) == *old(graph) && *final(undo_redo) == *old(undo_redo),
        },
        (r is Some) ==> final(graph).vertex_alloc_margin() == old(graph).vertex_alloc_margin()
            - 1 && final(graph).edge_alloc_margin() == old(graph).edge_alloc_margin() - 1,
{
    let endpoints = match graph.edge_endpoints(e) {
        Some(d) => d,
        None => {
            return None;
        },
    };
    proof {
        graph.lemma_wf_view();
    }
    let v = graph.insert_fresh_vertex(world_position, String::new());
    graph.set_edge_endpoints(e, endpoints.from, v);
    let e2 = graph.insert_fresh_edge(v, endpoints.to);
    proof {
        assert(graph@ =~= apply_mutation(
            old(graph)@,
            MutationView::Insert { vertex: v, edge: e, second_edge: e2, position: world_position },
        ));
    }
    undo_redo.push_undo(
        UndoAction::UndoVertexInsertionAction(
            VertexInsertionAction {
                vertex_entity: v,
                vertex_position: world_position,
                edge_entity: e,
                second_edge_entity: e2,
                from: endpoints.from,
                to: endpoints.to,
            },
        ),
        graph,
    );
    Some((v, e2))
}

} // verus!
