//! The action taxonomy: the data stored per reversible step, and what
//! applying a stored action does to the graph model.
//!
//! An [`UndoAction`] holds what is needed to reverse a mutation that was
//! applied; a [`RedoAction`] holds what is needed to replay one that was
//! undone.  The same payload therefore acts in opposite directions
//! depending on which history it sits in: popping `UndoVertexSpawn`
//! deletes the spawned vertex, while popping `RedoVertexSpawn` re-creates
//! it.  Both histories abstract to sequences of [`ActionView`].

use vstd::prelude::*;

use crate::components::{DirectedEdge, EdgeId, Position, VertexId};
use crate::graph::{
    cascade_edges, delete_vertex_effect, GraphView, VertexView,
};

verus! {

/// A vertex held this label before a rename.
pub struct VertexRenameAction {
    pub entity: VertexId,
    pub name: String,
}

/// A vertex with this position and label was deleted.
pub struct VertexDeletionAction {
    pub entity: VertexId,
    pub position: Position,
    pub vertex_label: String,
}

/// A vertex was created at this position.
pub struct VertexSpawnAction {
    pub entity: VertexId,
    pub position: Position,
}

/// A vertex stood at this position before a move.
pub struct VertexMoveAction {
    pub entity: VertexId,
    pub position: Position,
}

/// An edge was drawn between these vertices.
pub struct EdgeDrawingAction {
    pub entity: EdgeId,
    pub from: VertexId,
    pub to: VertexId,
}

/// An edge between these vertices was deleted.
pub struct EdgeDeletionAction {
    pub entity: EdgeId,
    pub from: VertexId,
    pub to: VertexId,
}

/// A vertex was inserted on an edge: `edge_entity` ran from `from` to
/// `to`, now ends at `vertex_entity`, and `second_edge_entity` continues
/// from there to `to`.
pub struct VertexInsertionAction {
    pub vertex_entity: VertexId,
    pub vertex_position: Position,
    pub edge_entity: EdgeId,
    pub second_edge_entity: EdgeId,
    pub from: VertexId,
    pub to: VertexId,
}

/// An inverse action in the undo history.
pub enum UndoAction {
    UndoVertexRename(VertexRenameAction),
    UndoVertexDeletion(VertexDeletionAction),
    UndoVertexSpawn(VertexSpawnAction),
    UndoVertexMoveAction(VertexMoveAction),
    UndoEdgeDrawingAction(EdgeDrawingAction),
    UndoEdgeDeletionAction(EdgeDeletionAction),
    UndoVertexInsertionAction(VertexInsertionAction),
}

/// A replay action in the redo history.
pub enum RedoAction {
    RedoVertexRename(VertexRenameAction),
    RedoVertexDeletion(VertexDeletionAction),
    RedoVertexSpawn(VertexSpawnAction),
    RedoVertexMoveAction(VertexMoveAction),
    RedoEdgeDrawingAction(EdgeDrawingAction),
    RedoEdgeDeletionAction(EdgeDeletionAction),
    RedoVertexInsertionAction(VertexInsertionAction),
}

/// The mathematical content of a stored action.
pub enum ActionView {
    Rename { vertex: VertexId, label: Seq<char> },
    Deletion { vertex: VertexId, position: Position, label: Seq<char> },
    Spawn { vertex: VertexId, position: Position },
    Move { vertex: VertexId, position: Position },
    EdgeDrawing { edge: EdgeId, from: VertexId, to: VertexId },
    EdgeDeletion { edge: EdgeId, from: VertexId, to: VertexId },
    Insertion {
        vertex: VertexId,
        position: Position,
        edge: EdgeId,
        second_edge: EdgeId,
        from: VertexId,
        to: VertexId,
    },
}

impl View for UndoAction {
    type V = ActionView;

    open spec fn view(&self) -> ActionView {
        match self {
            UndoAction::UndoVertexRename(a) => ActionView::Rename {
                vertex: a.entity,
                label: a.name@,
            },
            UndoAction::UndoVertexDeletion(a) => ActionView::Deletion {
                vertex: a.entity,
                position: a.position,
                label: a.vertex_label@,
            },
            UndoAction::UndoVertexSpawn(a) => ActionView::Spawn {
                vertex: a.entity,
                position: a.position,
            },
            UndoAction::UndoVertexMoveAction(a) => ActionView::Move {
                vertex: a.entity,
                position: a.position,
            },
            UndoAction::UndoEdgeDrawingAction(a) => ActionView::EdgeDrawing {
                edge: a.entity,
                from: a.from,
                to: a.to,
            },
            UndoAction::UndoEdgeDeletionAction(a) => ActionView::EdgeDeletion {
                edge: a.entity,
                from: a.from,
                to: a.to,
            },
            UndoAction::UndoVertexInsertionAction(a) => ActionView::Insertion {
                vertex: a.vertex_entity,
                position: a.vertex_position,
                edge: a.edge_entity,
                second_edge: a.second_edge_entity,
                from: a.from,
                to: a.to,
            },
        }
    }
}

impl View for RedoAction {
    type V = ActionView;

    open spec fn view(&self) -> ActionView {
        match self {
            RedoAction::RedoVertexRename(a) => ActionView::Rename {
                vertex: a.entity,
                label: a.name@,
            },
            RedoAction::RedoVertexDeletion(a) => ActionView::Deletion {
                vertex: a.entity,
                position: a.position,
                label: a.vertex_label@,
            },
            RedoAction::RedoVertexSpawn(a) => ActionView::Spawn {
                vertex: a.entity,
                position: a.position,
            },
            RedoAction::RedoVertexMoveAction(a) => ActionView::Move {
                vertex: a.entity,
                position: a.position,
            },
            RedoAction::RedoEdgeDrawingAction(a) => ActionView::EdgeDrawing {
                edge: a.entity,
                from: a.from,
                to: a.to,
            },
            RedoAction::RedoEdgeDeletionAction(a) => ActionView::EdgeDeletion {
                edge: a.entity,
                from: a.from,
                to: a.to,
            },
            RedoAction::RedoVertexInsertionAction(a) => ActionView::Insertion {
                vertex: a.vertex_entity,
                position: a.vertex_position,
                edge: a.edge_entity,
                second_edge: a.second_edge_entity,
                from: a.from,
                to: a.to,
            },
        }
    }
}

/// Whether popping this entry from the undo history finds its handles in
/// the state it expects.  A stale entry is dropped without effect.
pub open spec fn undo_applies(g: GraphView, a: ActionView) -> bool {
    match a {
        ActionView::Rename { vertex, .. } => g.vertices.dom().contains(vertex),
        ActionView::Deletion { vertex, .. } => !g.vertices.dom().contains(vertex) && vertex.0
            < u64::MAX,
        ActionView::Spawn { vertex, .. } => g.vertices.dom().contains(vertex),
        ActionView::Move { vertex, .. } => g.vertices.dom().contains(vertex),
        ActionView::EdgeDrawing { edge, .. } => g.edges.dom().contains(edge),
        ActionView::EdgeDeletion { edge, from, to } => !g.edges.dom().contains(edge) && edge.0
            < u64::MAX && g.vertices.dom().contains(from) && g.vertices.dom().contains(to),
        ActionView::Insertion { vertex, edge, from, to, .. } => g.edges.dom().contains(edge)
            && g.vertices.dom().contains(vertex) && g.vertices.dom().contains(from)
            && g.vertices.dom().contains(to) && from != vertex && to != vertex,
    }
}

/// What applying an undo entry does to the model: the reverse of the
/// mutation that recorded it.
pub open spec fn apply_undo(g: GraphView, a: ActionView) -> GraphView {
    match a {
        ActionView::Rename { vertex, label } => crate::graph::rename_effect(g, vertex, label),
        ActionView::Deletion { vertex, position, label } => crate::graph::spawn_effect(
            g,
            vertex,
            position,
            label,
        ),
        ActionView::Spawn { vertex, .. } => delete_vertex_effect(g, vertex),
        ActionView::Move { vertex, position } => crate::graph::move_effect(g, vertex, position),
        ActionView::EdgeDrawing { edge, .. } => crate::graph::delete_edge_effect(g, edge),
        ActionView::EdgeDeletion { edge, from, to } => crate::graph::connect_effect(
            g,
            edge,
            from,
            to,
        ),
        ActionView::Insertion { vertex, edge, from, to, .. } => delete_vertex_effect(
            GraphView {
                vertices: g.vertices,
                edges: g.edges.insert(edge, DirectedEdge { from, to }),
            },
            vertex,
        ),
    }
}

/// Whether popping this entry from the redo history finds its handles in
/// the state it expects.
pub open spec fn redo_applies(g: GraphView, a: ActionView) -> bool {
    match a {
        ActionView::Rename { vertex, .. } => g.vertices.dom().contains(vertex),
        ActionView::Deletion { vertex, .. } => g.vertices.dom().contains(vertex),
        ActionView::Spawn { vertex, .. } => !g.vertices.dom().contains(vertex) && vertex.0
            < u64::MAX,
        ActionView::Move { vertex, .. } => g.vertices.dom().contains(vertex),
        ActionView::EdgeDrawing { edge, from, to } => !g.edges.dom().contains(edge) && edge.0
            < u64::MAX && g.vertices.dom().contains(from) && g.vertices.dom().contains(to),
        ActionView::EdgeDeletion { edge, .. } => g.edges.dom().contains(edge),
        ActionView::Insertion { vertex, edge, second_edge, from, to, .. } => g.edges.dom()
            .contains(edge) && !g.vertices.dom().contains(vertex) && vertex.0 < u64::MAX
            && !g.edges.dom().contains(second_edge) && second_edge.0 < u64::MAX && edge
            != second_edge && g.vertices.dom().contains(from) && g.vertices.dom().contains(to),
    }
}

/// What applying a redo entry does to the model: the forward mutation
/// played again.
pub open spec fn apply_redo(g: GraphView, a: ActionView) -> GraphView {
    match a {
        ActionView::Rename { vertex, label } => crate::graph::rename_effect(g, vertex, label),
        ActionView::Deletion { vertex, .. } => delete_vertex_effect(g, vertex),
        ActionView::Spawn { vertex, position } => crate::graph::spawn_effect(
            g,
            vertex,
            position,
            Seq::empty(),
        ),
        ActionView::Move { vertex, position } => crate::graph::move_effect(g, vertex, position),
        ActionView::EdgeDrawing { edge, from, to } => crate::graph::connect_effect(
            g,
            edge,
            from,
            to,
        ),
        ActionView::EdgeDeletion { edge, .. } => crate::graph::delete_edge_effect(g, edge),
        ActionView::Insertion { vertex, position, edge, second_edge, from, to } => GraphView {
            vertices: g.vertices.insert(vertex, VertexView { position, label: Seq::empty() }),
            edges: g.edges.insert(edge, DirectedEdge { from, to: vertex }).insert(
                second_edge,
                DirectedEdge { from: vertex, to },
            ),
        },
    }
}

/// The entry pushed onto the opposite history before an action is
/// applied: it captures whatever current state the action overwrites.
pub open spec fn captured_inverse(g: GraphView, a: ActionView) -> ActionView {
    match a {
        ActionView::Rename { vertex, .. } => ActionView::Rename {
            vertex,
            label: g.vertices[vertex].label,
        },
        ActionView::Move { vertex, .. } => ActionView::Move {
            vertex,
            position: g.vertices[vertex].position,
        },
        other => other,
    }
}

/// How the bounded undo history takes one more entry: room left means a
/// plain push; a full history first evicts its oldest entry.
pub open spec fn record_push(undo: Seq<ActionView>, a: ActionView, cap: int) -> Seq<ActionView> {
    if undo.len() < cap {
        undo.push(a)
    } else {
        undo.drop_first().push(a)
    }
}

/// What eviction does to the graph: evicting a spawn inverse removes the
/// spawned object, which would otherwise stay visible but be beyond the
/// reach of undo.  Everything else leaves the graph alone.
pub open spec fn evict_effect(g: GraphView, undo: Seq<ActionView>, cap: int) -> GraphView {
    if undo.len() < cap {
        g
    } else {
        match undo.first() {
            ActionView::Spawn { vertex, .. } => delete_vertex_effect(g, vertex),
            _ => g,
        }
    }
}

/// Deleting a vertex that is absent from a well-formed model changes
/// nothing: no edge can touch it.
pub proof fn lemma_delete_absent_vertex(g: GraphView, v: VertexId)
    requires
        crate::graph::wf_view(g),
        !g.vertices.dom().contains(v),
    ensures
        delete_vertex_effect(g, v) == g,
{
    assert(g.vertices.remove(v) =~= g.vertices);
    assert(cascade_edges(g.edges, v) =~= g.edges);
    assert(delete_vertex_effect(g, v) =~= g);
}

} // verus!
