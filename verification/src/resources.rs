//! The session-wide state: the hover slot, the renaming state, and the
//! bounded undo/redo stack.
//!
//! The stack is a two-sided ledger of inverse actions.  `push_undo`
//! records a fresh manual action and clears the redo history; `undo` and
//! `redo` pop one entry, apply it to the graph store, and push the
//! captured counterpart onto the opposite history without clearing
//! anything, so toggling between them never grows the ledger.

use vstd::prelude::*;

use crate::components::{GraphHandle, Position, VertexId};
use crate::constants::UNDO_REDO_CAPACITY;
use crate::graph::Graph;
use crate::undo_redo::{
    apply_redo, apply_undo, captured_inverse, evict_effect, record_push, redo_applies,
    undo_applies, ActionView, EdgeDeletionAction, EdgeDrawingAction, RedoAction, UndoAction,
    VertexDeletionAction, VertexInsertionAction, VertexMoveAction, VertexRenameAction,
    VertexSpawnAction,
};

verus! {

/// The object currently under the pointer, if any.  Gesture handling
/// reads it synchronously to resolve drop targets.
pub struct HoveredEntity(pub Option<GraphHandle>);

/// The state of the one rename that may be active: which vertex, the text
/// being edited, and the screen anchor of the input widget.
pub struct RenamingState {
    pub active: bool,
    pub entity: Option<VertexId>,
    pub temp_text: String,
    pub screen_position: Position,
}

impl RenamingState {
    /// No rename active.
    pub fn new() -> (r: RenamingState)
        ensures
            !r.active,
            r.entity is None,
            r.temp_text@ == Seq::<char>::empty(),
            r.screen_position == (Position { x: 0, y: 0 }),
    {
        RenamingState {
            active: false,
            entity: None,
            temp_text: String::new(),
            screen_position: Position { x: 0, y: 0 },
        }
    }
}

impl Default for RenamingState {
    fn default() -> (r: RenamingState)
        ensures
            !r.active,
            r.entity is None,
            r.temp_text@ == Seq::<char>::empty(),
    {
        RenamingState::new()
    }
}

/// The bounded two-stack ledger of inverse actions.
pub struct UndoRedoStack {
    max_size: usize,
    undo_stack: Vec<UndoAction>,
    redo_stack: Vec<RedoAction>,
}

impl UndoRedoStack {
    /// The undo history, oldest first.
    pub closed spec fn undo_view(self) -> Seq<ActionView> {
        self.undo_stack@.map_values(|a: UndoAction| a@)
    }

    /// The redo history, oldest first.
    pub closed spec fn redo_view(self) -> Seq<ActionView> {
        self.redo_stack@.map_values(|a: RedoAction| a@)
    }

    /// The configured bound on the ledger.
    pub closed spec fn capacity(self) -> int {
        self.max_size as int
    }

    /// The two histories never hold more entries together than the
    /// configured capacity; in particular the undo history alone never
    /// exceeds it.
    pub closed spec fn wf(self) -> bool {
        &&& self.max_size == UNDO_REDO_CAPACITY
        &&& self.undo_stack@.len() + self.redo_stack@.len() <= self.max_size
    }

    /// An empty ledger at the configured capacity.
    pub fn new() -> (s: UndoRedoStack)
        ensures
            s.wf(),
            s.undo_view() == Seq::<ActionView>::empty(),
            s.redo_view() == Seq::<ActionView>::empty(),
            s.capacity() == UNDO_REDO_CAPACITY as int,
    {
        let s = UndoRedoStack {
            max_size: UNDO_REDO_CAPACITY,
            undo_stack: Vec::new(),
            redo_stack: Vec::new(),
        };
        proof {
            assert(s.undo_view() =~= Seq::<ActionView>::empty());
            assert(s.redo_view() =~= Seq::<ActionView>::empty());
        }
        s
    }

    /// How many entries the undo history holds.
    pub fn undo_len(&self) -> (r: usize)
        ensures
            r == self.undo_view().len(),
    {
        self.undo_stack.len()
    }

    /// How many entries the redo history holds.
    pub fn redo_len(&self) -> (r: usize)
        ensures
            r == self.redo_view().len(),
    {
        self.redo_stack.len()
    }

    /// Neither history ever exceeds the configured capacity; in fact the
    /// two together never hold more entries than it allows, and the
    /// capacity of any well-formed ledger is the configured constant.
    pub proof fn lemma_history_bounded(self)
        requires
            self.wf(),
        ensures
            self.capacity() == UNDO_REDO_CAPACITY as int,
            self.undo_view().len() <= self.capacity(),
            self.redo_view().len() <= self.capacity(),
            self.undo_view().len() + self.redo_view().len() <= self.capacity(),
    {
    }

    /// Record the inverse of a fresh manual action.  This clears the redo
    /// history: a new action invalidates any redo path.  At capacity the
    /// oldest entry is evicted first, and evicting a spawn inverse also
    /// removes the spawned object from the graph, which would otherwise
    /// stay visible with no way left to undo it.
    pub fn push_undo(&mut self, undo_action: UndoAction, graph: &mut Graph)
        requires
            old(self).wf(),
            old(graph).wf(),
        ensures
            final(self).wf(),
            final(graph).wf(),
            final(self).capacity() == old(self).capacity(),
            final(self).undo_view() == record_push(
                old(self).undo_view(),
                undo_action@,
                old(self).capacity(),
            ),
            final(self).redo_view() == Seq::<ActionView>::empty(),
            final(graph)@ == evict_effect(old(graph)@, old(self).undo_view(), old(self).capacity()),
            forall|w: VertexId|
                #[trigger] final(graph)@.vertices.dom().contains(w) ==> final(graph).tracker_of(w)
                    == old(graph).tracker_of(w),
            final(graph).vertex_alloc_margin() == old(graph).vertex_alloc_margin(),
            final(graph).edge_alloc_margin() == old(graph).edge_alloc_margin(),
    {
        if self.undo_stack.len() == self.max_size {
            let evicted = self.undo_stack.remove(0);
            proof {
                assert(evicted@ == old(self).undo_view().first());
                assert(self.undo_stack@.map_values(|a: UndoAction| a@) =~= old(self).undo_view().drop_first());
            }
            match evicted {
                UndoAction::UndoVertexSpawn(spawn_action) => {
                    proof {
                        graph.lemma_wf_view();
                    }
                    let existed = graph.has_vertex(spawn_action.entity);
                    graph.remove_vertex_cascade(spawn_action.entity);
                    proof {
                        if existed {
                            assert(graph@ =~= evict_effect(
                                old(graph)@,
                                old(self).undo_view(),
                                old(self).capacity(),
                            ));
                        } else {
                            crate::undo_redo::lemma_delete_absent_vertex(
                                old(graph)@,
                                spawn_action.entity,
                            );
                        }
                    }
                },
                _ => {},
            }
        }
        self.undo_stack.push(undo_action);
        self.redo_stack.clear();
        proof {
            assert(self.redo_view() =~= Seq::<ActionView>::empty());
            if old(self).undo_view().len() < old(self).capacity() {
                assert(self.undo_view() =~= old(self).undo_view().push(undo_action@));
            } else {
                assert(self.undo_view() =~= old(self).undo_view().drop_first().push(
                    undo_action@,
                ));
            }
        }
    }

    /// Append to the undo history without touching the redo history.
    /// Used when a redo is replayed, so that toggling back remains
    /// possible; the ledger must have room.
    pub fn push_undo_without_clear(&mut self, undo_action: UndoAction)
        requires
            old(self).wf(),
            old(self).undo_view().len() + old(self).redo_view().len() < old(self).capacity(),
        ensures
            final(self).wf(),
            final(self).capacity() == old(self).capacity(),
            final(self).undo_view() == old(self).undo_view().push(undo_action@),
            final(self).redo_view() == old(self).redo_view(),
    {
        self.undo_stack.push(undo_action);
        proof {
            assert(self.undo_view() =~= old(self).undo_view().push(undo_action@));
        }
    }

    /// Append to the redo history.  Entries only ever arrive here from
    /// the undo history, so the ledger has room by construction.
    pub fn push_redo(&mut self, redo_action: RedoAction)
        requires
            old(self).wf(),
            old(self).undo_view().len() + old(self).redo_view().len() < old(self).capacity(),
        ensures
            final(self).wf(),
            final(self).capacity() == old(self).capacity(),
            final(self).redo_view() == old(self).redo_view().push(redo_action@),
            final(self).undo_view() == old(self).undo_view(),
    {
        self.redo_stack.push(redo_action);
        proof {
            assert(self.redo_view() =~= old(self).redo_view().push(redo_action@));
        }
    }

    /// Undo the most recent entry.  With an empty history this is a
    /// no-op.  Otherwise the entry is popped; if its handles are still
    /// valid it is applied to the graph and the captured counterpart is
    /// pushed onto the redo history, else it is dropped without effect.
    pub fn undo(&mut self, graph: &mut Graph)
        requires
            old(self).wf(),
            old(graph).wf(),
        ensures
            final(self).wf(),
            final(graph).wf(),
            final(self).capacity() == old(self).capacity(),
            old(self).undo_view().len() == 0 ==> final(self).undo_view() == old(self).undo_view()
                && final(self).redo_view() == old(self).redo_view() && *final(graph) == *old(graph),
            old(self).undo_view().len() > 0 ==> ({
                let a = old(self).undo_view().last();
                &&& final(self).undo_view() == old(self).undo_view().drop_last()
                &&& (undo_applies(old(graph)@, a) ==> final(graph)@ == apply_undo(old(graph)@, a)
                    && final(self).redo_view() == old(self).redo_view().push(
                    captured_inverse(old(graph)@, a),
                ))
                &&& (!undo_applies(old(graph)@, a) ==> final(graph)@ == old(graph)@
                    && final(self).redo_view() == old(self).redo_view())
            }),
    {
        let popped = self.undo_stack.pop();
        let action = match popped {
            Some(a) => a,
            None => {
                return;
            },
        };
        proof {
            assert(action@ == old(self).undo_view().last());
            assert(self.undo_stack@.map_values(|x: UndoAction| x@) =~= old(self).undo_view().drop_last());
        }
        match action {
            UndoAction::UndoVertexRename(rename) => {
                match graph.vertex_label(rename.entity) {
                    Some(current_label) => {
                        self.push_redo(
                            RedoAction::RedoVertexRename(
                                VertexRenameAction { entity: rename.entity, name: current_label },
                            ),
                        );
                        graph.set_vertex_label(rename.entity, rename.name);
                        proof {
                            assert(graph@ =~= apply_undo(old(graph)@, action@));
                        }
                    },
                    None => {},
                }
            },
            UndoAction::UndoVertexDeletion(deletion) => {
                let present = graph.has_vertex(deletion.entity);
                if !present && deletion.entity.0 < u64::MAX {
                    let relabel = deletion.vertex_label.clone();
                    graph.insert_vertex_with_id(deletion.entity, deletion.position, relabel);
                    self.push_redo(
                        RedoAction::RedoVertexDeletion(
                            VertexDeletionAction {
                                entity: deletion.entity,
                                position: deletion.position,
                                vertex_label: deletion.vertex_label,
                            },
                        ),
                    );
                    proof {
                        assert(graph@ =~= apply_undo(old(graph)@, action@));
                    }
                }
            },
            UndoAction::UndoVertexSpawn(spawn) => {
                let present = graph.has_vertex(spawn.entity);
                if present {
                    self.push_redo(
                        RedoAction::RedoVertexSpawn(
                            VertexSpawnAction { entity: spawn.entity, position: spawn.position },
                        ),
                    );
                    graph.remove_vertex_cascade(spawn.entity);
                    proof {
                        assert(graph@ =~= apply_undo(old(graph)@, action@));
                    }
                }
            },
            UndoAction::UndoVertexMoveAction(mv) => {
                match graph.vertex_position(mv.entity) {
                    Some(current_position) => {
                        self.push_redo(
                            RedoAction::RedoVertexMoveAction(
                                VertexMoveAction { entity: mv.entity, position: current_position },
                            ),
                        );
                        graph.set_vertex_position(mv.entity, mv.position);
                        proof {
                            assert(graph@ =~= apply_undo(old(graph)@, action@));
                        }
                    },
                    None => {},
                }
            },
            UndoAction::UndoEdgeDrawingAction(drawing) => {
                let present = graph.has_edge(drawing.entity);
                if present {
                    self.push_redo(
                        RedoAction::RedoEdgeDrawingAction(
                            EdgeDrawingAction {
                                entity: drawing.entity,
                                from: drawing.from,
                                to: drawing.to,
                            },
                        ),
                    );
                    graph.remove_edge(drawing.entity);
                    proof {
                        assert(graph@ =~= apply_undo(old(graph)@, action@));
                    }
                }
            },
            UndoAction::UndoEdgeDeletionAction(deletion) => {
                let free = !graph.has_edge(deletion.entity);
                let from_there = graph.has_vertex(deletion.from);
                let to_there = graph.has_vertex(deletion.to);
                if free && deletion.entity.0 < u64::MAX && from_there && to_there {
                    graph.insert_edge_with_id(deletion.entity, deletion.from, deletion.to);
                    self.push_redo(
                        RedoAction::RedoEdgeDeletionAction(
                            EdgeDeletionAction {
                                entity: deletion.entity,
                                from: deletion.from,
                                to: deletion.to,
                            },
                        ),
                    );
                    proof {
                        assert(graph@ =~= apply_undo(old(graph)@, action@));
                    }
                }
            },
            UndoAction::UndoVertexInsertionAction(ins) => {
                let edge_there = graph.has_edge(ins.edge_entity);
                let vertex_there = graph.has_vertex(ins.vertex_entity);
                let from_there = graph.has_vertex(ins.from);
                let to_there = graph.has_vertex(ins.to);
                if edge_there && vertex_there && from_there && to_there && ins.from.0
                    != ins.vertex_entity.0 && ins.to.0 != ins.vertex_entity.0 {
                    graph.set_edge_endpoints(ins.edge_entity, ins.from, ins.to);
                    graph.remove_vertex_cascade(ins.vertex_entity);
                    self.push_redo(
                        RedoAction::RedoVertexInsertionAction(
                            VertexInsertionAction {
                                vertex_entity: ins.vertex_entity,
                                vertex_position: ins.vertex_position,
                                edge_entity: ins.edge_entity,
                                second_edge_entity: ins.second_edge_entity,
                                from: ins.from,
                                to: ins.to,
                            },
                        ),
                    );
                    proof {
                        assert(graph@ =~= apply_undo(old(graph)@, action@));
                    }
                }
            },
        }
    }

    /// Redo the most recent undone entry.  With an empty redo history
    /// this is a no-op.  Otherwise the entry is popped; if its handles
    /// are still valid it is replayed and the captured counterpart is
    /// pushed back onto the undo history without clearing anything.
    pub fn redo(&mut self, graph: &mut Graph)
        requires
            old(self).wf(),
            old(graph).wf(),
        ensures
            final(self).wf(),
            final(graph).wf(),
            final(self).capacity() == old(self).capacity(),
            old(self).redo_view().len() == 0 ==> final(self).undo_view() == old(self).undo_view()
                && final(self).redo_view() == old(self).redo_view() && *final(graph) == *old(graph),
            old(self).redo_view().len() > 0 ==> ({
                let a = old(self).redo_view().last();
                &&& final(self).redo_view() == old(self).redo_view().drop_last()
                &&& (redo_applies(old(graph)@, a) ==> final(graph)@ == apply_redo(old(graph)@, a)
                    && final(self).undo_view() == old(self).undo_view().push(
                    captured_inverse(old(graph)@, a),
                ))
                &&& (!redo_applies(old(graph)@, a) ==> final(graph)@ == old(graph)@
                    && final(self).undo_view() == old(self).undo_view())
            }),
    {
        let popped = self.redo_stack.pop();
        let action = match popped {
            Some(a) => a,
            None => {
                return;
            },
        };
        proof {
            assert(action@ == old(self).redo_view().last());
            assert(self.redo_stack@.map_values(|x: RedoAction| x@) =~= old(self).redo_view().drop_last());
        }
        match action {
            RedoAction::RedoVertexRename(rename) => {
                match graph.vertex_label(rename.entity) {
                    Some(current_label) => {
                        self.push_undo_without_clear(
                            UndoAction::UndoVertexRename(
                                VertexRenameAction { entity: rename.entity, name: current_label },
                            ),
                        );
                        graph.set_vertex_label(rename.entity, rename.name);
                        proof {
                            assert(graph@ =~= apply_redo(old(graph)@, action@));
                        }
                    },
                    None => {},
                }
            },
            RedoAction::RedoVertexDeletion(deletion) => {
                let present = graph.has_vertex(deletion.entity);
                if present {
                    self.push_undo_without_clear(
                        UndoAction::UndoVertexDeletion(
                            VertexDeletionAction {
                                entity: deletion.entity,
                                position: deletion.position,
                                vertex_label: deletion.vertex_label,
                            },
                        ),
                    );
                    graph.remove_vertex_cascade(deletion.entity);
                    proof {
                        assert(graph@ =~= apply_redo(old(graph)@, action@));
                    }
                }
            },
            RedoAction::RedoVertexSpawn(spawn) => {
                let free = !graph.has_vertex(spawn.entity);
                if free && spawn.entity.0 < u64::MAX {
                    graph.insert_vertex_with_id(spawn.entity, spawn.position, String::new());
                    self.push_undo_without_clear(
                        UndoAction::UndoVertexSpawn(
                            VertexSpawnAction { entity: spawn.entity, position: spawn.position },
                        ),
                    );
                    proof {
                        assert(graph@ =~= apply_redo(old(graph)@, action@));
                    }
                }
            },
            RedoAction::RedoVertexMoveAction(mv) => {
                match graph.vertex_position(mv.entity) {
                    Some(current_position) => {
                        self.push_undo_without_clear(
                            UndoAction::UndoVertexMoveAction(
                                VertexMoveAction { entity: mv.entity, position: current_position },
                            ),
                        );
                        graph.set_vertex_position(mv.entity, mv.position);
                        proof {
                            assert(graph@ =~= apply_redo(old(graph)@, action@));
                        }
                    },
                    None => {},
                }
            },
            RedoAction::RedoEdgeDrawingAction(drawing) => {
                let free = !graph.has_edge(drawing.entity);
                let from_there = graph.has_vertex(drawing.from);
                let to_there = graph.has_vertex(drawing.to);
                if free && drawing.entity.0 < u64::MAX && from_there && to_there {
                    graph.insert_edge_with_id(drawing.entity, drawing.from, drawing.to);
                    self.push_undo_without_clear(
                        UndoAction::UndoEdgeDrawingAction(
                            EdgeDrawingAction {
                                entity: drawing.entity,
                                from: drawing.from,
                                to: drawing.to,
                            },
                        ),
                    );
                    proof {
                        assert(graph@ =~= apply_redo(old(graph)@, action@));
                    }
                }
            },
            RedoAction::RedoEdgeDeletionAction(deletion) => {
                let present = graph.has_edge(deletion.entity);
                if present {
                    self.push_undo_without_clear(
                        UndoAction::UndoEdgeDeletionAction(
                            EdgeDeletionAction {
                                entity: deletion.entity,
                                from: deletion.from,
                                to: deletion.to,
                            },
                        ),
                    );
                    graph.remove_edge(deletion.entity);
                    proof {
                        assert(graph@ =~= apply_redo(old(graph)@, action@));
                    }
                }
            },
            RedoAction::RedoVertexInsertionAction(ins) => {
                let edge_there = graph.has_edge(ins.edge_entity);
                let vertex_free = !graph.has_vertex(ins.vertex_entity);
                let second_free = !graph.has_edge(ins.second_edge_entity);
                let from_there = graph.has_vertex(ins.from);
                let to_there = graph.has_vertex(ins.to);
                if edge_there && vertex_free && ins.vertex_entity.0 < u64::MAX && second_free
                    && ins.second_edge_entity.0 < u64::MAX && ins.edge_entity.0
                    != ins.second_edge_entity.0 && from_there && to_there {
                    graph.insert_vertex_with_id(
                        ins.vertex_entity,
                        ins.vertex_position,
                        String::new(),
                    );
                    graph.set_edge_endpoints(ins.edge_entity, ins.from, ins.vertex_entity);
                    graph.insert_edge_with_id(ins.second_edge_entity, ins.vertex_entity, ins.to);
                    self.push_undo_without_clear(
                        UndoAction::UndoVertexInsertionAction(
                            VertexInsertionAction {
                                vertex_entity: ins.vertex_entity,
                                vertex_position: ins.vertex_position,
                                edge_entity: ins.edge_entity,
                                second_edge_entity: ins.second_edge_entity,
                                from: ins.from,
                                to: ins.to,
                            },
                        ),
                    );
                    proof {
                        assert(graph@ =~= apply_redo(old(graph)@, action@));
                    }
                }
            },
        }
    }
}

} // verus!
