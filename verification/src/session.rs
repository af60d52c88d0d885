//! The gesture interpreter: one editing session, with the graph store,
//! the undo/redo ledger, the hover slot, the temporary edge and the
//! renaming state, and the handlers that turn pointer events into
//! recorded graph mutations.
//!
//! Handlers take world-space coordinates, button identities, clock
//! readings in milliseconds and the already-converted screen anchor as
//! plain values; converting between coordinate spaces is the caller's
//! business.  A gesture whose target has vanished is silently dropped.

use vstd::prelude::*;

use crate::components::{
    ClickTracker, CursorIconKind, DirectedEdge, EdgeId, GraphHandle, Position,
    TemporaryDirectedEdge, VertexId,
};
use crate::constants::{CONSECUTIVE_CLICK_TIME, RENAME_CLICK_COUNT, UNDO_REDO_CAPACITY};
use crate::events::{
    CanvasClickedEvent, EdgeClickedEvent, PointerButton, UpdateCursorIconEvent,
    VertexClickedEvent, VertexDragDroppedEvent, VertexDraggingEvent, VertexRenamedEvent,
};
use crate::graph::{rename_effect, Graph, GraphView, VertexView};
use crate::mutator::{
    connect_vertices, delete_edge, delete_vertex, insert_vertex_on_edge, move_vertex,
    recorded_graph, recorded_undo, rename_vertex, spawn_vertex, MutationView,
};
use crate::resources::{HoveredEntity, RenamingState, UndoRedoStack};
use crate::undo_redo::{apply_redo, apply_undo, captured_inverse, redo_applies, undo_applies,
    ActionView,
};

verus! {

/// Two clicks count as consecutive when the second falls within the
/// configured window after the first.
pub open spec fn within_click_window(last: u64, now: u64) -> bool {
    last <= now && now - last <= CONSECUTIVE_CLICK_TIME
}

/// The consecutive-click count grows by one, and stops at the top of its
/// range rather than wrapping.
pub open spec fn bumped_count(c: u32) -> u32 {
    if c < u32::MAX {
        (c + 1) as u32
    } else {
        c
    }
}

/// How a vertex's click bookkeeping changes when it is clicked at
/// `now`: a click within the window continues the count, any other
/// click restarts it at one.
pub open spec fn tracker_after_click(t: ClickTracker, now: u64) -> ClickTracker {
    match t.last_click_time {
        None => ClickTracker { last_click_time: Some(now), click_count: 1 },
        Some(last) => if within_click_window(last, now) {
            ClickTracker { last_click_time: Some(now), click_count: bumped_count(t.click_count) }
        } else {
            ClickTracker { last_click_time: Some(now), click_count: 1 }
        },
    }
}

/// Whether a click at `now` is the one that reaches the rename
/// threshold: it continues a run, and the count lands exactly on the
/// threshold.
pub open spec fn click_starts_rename(t: ClickTracker, now: u64) -> bool {
    match t.last_click_time {
        None => false,
        Some(last) => within_click_window(last, now) && bumped_count(t.click_count)
            == RENAME_CLICK_COUNT,
    }
}

/// Which cursor shape the window should show: the delete modifier over
/// any hovered object asks for a crosshair, a hovered vertex for a
/// grab hand, a hovered edge for a cell cursor, anything else for the
/// default arrow.
pub open spec fn cursor_icon_spec(
    g: GraphView,
    hovered: Option<GraphHandle>,
    delete_modifier: bool,
) -> CursorIconKind {
    match hovered {
        None => CursorIconKind::Default,
        Some(h) => if delete_modifier {
            CursorIconKind::Crosshair
        } else {
            match h {
                GraphHandle::Vertex(v) => if g.vertices.dom().contains(v) {
                    CursorIconKind::Grab
                } else {
                    CursorIconKind::Default
                },
                GraphHandle::Edge(e) => if g.edges.dom().contains(e) {
                    CursorIconKind::Cell
                } else {
                    CursorIconKind::Default
                },
            }
        },
    }
}

/// What a click on a vertex amounted to.
#[derive(Clone, Copy, Debug, PartialEq, Eq, Structural)]
pub enum VertexClickOutcome {
    /// The vertex no longer exists; nothing happened.
    Ignored,
    /// The delete modifier was held: the vertex was deleted.
    Deleted,
    /// The click was counted towards a double click.
    Counted,
    /// The click reached the threshold: renaming started.
    RenameStarted,
}

/// What dropping a dragged vertex amounted to.
#[derive(Clone, Copy, Debug, PartialEq, Eq, Structural)]
pub enum DragDropOutcome {
    /// Primary-button drop: the move already happened while dragging.
    NoGesture,
    /// Secondary-button drop whose handles had vanished; nothing done.
    Dropped,
    /// Connected the dragged vertex to the hovered vertex by this edge.
    Connected(EdgeId),
    /// Split the hovered edge by a new vertex and connected to it: the
    /// inserted vertex, the continuation edge, the connecting edge.
    SplitAndConnected(VertexId, EdgeId, EdgeId),
    /// Split the hovered edge, but the dragged vertex had vanished, so
    /// no connection was drawn.
    SplitOnly(VertexId, EdgeId),
    /// Spawned a vertex at the drop point and connected to it.
    SpawnedAndConnected(VertexId, EdgeId),
    /// Spawned a vertex, but the dragged vertex had vanished, so no
    /// connection was drawn.
    SpawnedOnly(VertexId),
}

/// One editing session: every piece of state the gesture handlers and
/// the mutation machinery touch, owned in one place for the lifetime of
/// the session.
pub struct EditorSession {
    pub graph: Graph,
    pub undo_redo: UndoRedoStack,
    pub hovered: HoveredEntity,
    pub temp_edge: TemporaryDirectedEdge,
    pub renaming: RenamingState,
}

impl EditorSession {
    /// The store and the ledger are well formed.
    pub open spec fn wf(self) -> bool {
        &&& self.graph.wf()
        &&& self.undo_redo.wf()
    }

    /// A fresh session: empty graph, empty histories, nothing hovered,
    /// no temporary edge, no rename.
    pub fn new() -> (s: EditorSession)
        ensures
            s.wf(),
            s.graph@.vertices == Map::<VertexId, VertexView>::empty(),
            s.graph@.edges == Map::<EdgeId, DirectedEdge>::empty(),
            s.undo_redo.undo_view() == Seq::<ActionView>::empty(),
            s.undo_redo.redo_view() == Seq::<ActionView>::empty(),
            s.undo_redo.capacity() == UNDO_REDO_CAPACITY as int,
            s.hovered.0 is None,
            s.temp_edge.from is None,
            s.temp_edge.to == (Position { x: 0, y: 0 }),
            !s.renaming.active,
            s.graph.vertex_alloc_margin() == u64::MAX as int,
            s.graph.edge_alloc_margin() == u64::MAX as int,
    {
        EditorSession {
            graph: Graph::new(),
            undo_redo: UndoRedoStack::new(),
            hovered: HoveredEntity(None),
            temp_edge: TemporaryDirectedEdge { from: None, to: Position { x: 0, y: 0 } },
            renaming: RenamingState::new(),
        }
    }

    /// A primary-button click on the canvas background spawns a vertex
    /// with an empty label at the click point and records its inverse;
    /// any other button does nothing.
    pub fn canvas_clicked(&mut self, click: CanvasClickedEvent) -> (r: Option<VertexId>)
        requires
            old(self).wf(),
            old(self).graph.vertex_alloc_margin() >= 1,
        ensures
            final(self).wf(),
            final(self).undo_redo.capacity() == old(self).undo_redo.capacity(),
            (r is Some) == (click.button is Primary),
            match r {
                Some(v) => ({
                    let m = MutationView::Spawn { vertex: v, position: click.world_position };
                    &&& !old(self).graph@.vertices.dom().contains(v)
                    &&& v.0 < u64::MAX
                    &&& (final(self).graph@.vertices.dom().contains(v) ==> final(self).graph.tracker_of(v) == ClickTracker::initial())
                    &&& final(self).graph@ == recorded_graph(
                        old(self).graph@,
                        m,
                        old(self).undo_redo.undo_view(),
                        old(self).undo_redo.capacity(),
                    )
                    &&& final(self).undo_redo.undo_view() == recorded_undo(
                        old(self).graph@,
                        m,
                        old(self).undo_redo.undo_view(),
                        old(self).undo_redo.capacity(),
                    )
                    &&& final(self).undo_redo.redo_view() == Seq::<ActionView>::empty()
                }),
                None => *final(self) == *old(self),
            },
            final(self).hovered == old(self).hovered,
            final(self).temp_edge == old(self).temp_edge,
            final(self).renaming == old(self).renaming,
    {
        match click.button {
            PointerButton::Primary => {
                let v = spawn_vertex(
                    &mut self.graph,
                    &mut self.undo_redo,
                    click.world_position,
                );
                Some(v)
            },
            PointerButton::Secondary => None,
        }
    }

    /// A click on a vertex deletes it when the delete modifier is held
    /// (bypassing click-counting), and otherwise counts towards a double
    /// click: the second click of a run within the window starts
    /// renaming, with the vertex's current label as the text and the
    /// given screen anchor for the input widget.
    pub fn click_vertex(
        &mut self,
        click: VertexClickedEvent,
        now_ms: u64,
        delete_modifier: bool,
        anchor: Position,
    ) -> (r: VertexClickOutcome)
        requires
            old(self).wf(),
        ensures
            final(self).wf(),
            final(self).undo_redo.capacity() == old(self).undo_redo.capacity(),
            final(self).temp_edge == old(self).temp_edge,
            !old(self).graph@.vertices.dom().contains(click.entity) ==> r is Ignored && *final(self) == *old(self),
            old(self).graph@.vertices.dom().contains(click.entity) && delete_modifier ==> ({
                let m = MutationView::Delete { vertex: click.entity };
                &&& r is Deleted
                &&& final(self).graph@ == recorded_graph(
                    old(self).graph@,
                    m,
                    old(self).undo_redo.undo_view(),
                    old(self).undo_redo.capacity(),
                )
                &&& final(self).undo_redo.undo_view() == recorded_undo(
                    old(self).graph@,
                    m,
                    old(self).undo_redo.undo_view(),
                    old(self).undo_redo.capacity(),
                )
                &&& final(self).undo_redo.redo_view() == Seq::<ActionView>::empty()
                &&& final(self).hovered.0 is None
                &&& final(self).renaming == old(self).renaming
            }),
            old(self).graph@.vertices.dom().contains(click.entity) && !delete_modifier ==> ({
                let t0 = old(self).graph.tracker_of(click.entity);
                &&& final(self).graph@ == old(self).graph@
                &&& final(self).graph.tracker_of(click.entity) == tracker_after_click(t0, now_ms)
                &&& final(self).undo_redo == old(self).undo_redo
                &&& final(self).hovered == old(self).hovered
                &&& (click_starts_rename(t0, now_ms) ==> r is RenameStarted && final(self).renaming.active && final(self).renaming.entity == Some(click.entity) && final(self).renaming.temp_text@ == old(self).graph@.vertices[click.entity].label && final(self).renaming.screen_position == anchor)
                &&& (!click_starts_rename(t0, now_ms) ==> r is Counted && final(self).renaming
                    == old(self).renaming)
            }),
    {
        if !self.graph.has_vertex(click.entity) {
            return VertexClickOutcome::Ignored;
        }
        if delete_modifier {
            delete_vertex(&mut self.graph, &mut self.undo_redo, click.entity);
            self.hovered = HoveredEntity(None);
            return VertexClickOutcome::Deleted;
        }
        let t = self.graph.get_tracker(click.entity).unwrap();
        match t.last_click_time {
            None => {
                self.graph.set_tracker(
                    click.entity,
                    ClickTracker { last_click_time: Some(now_ms), click_count: 1 },
                );
                VertexClickOutcome::Counted
            },
            Some(last) => {
                if last <= now_ms && now_ms - last <= CONSECUTIVE_CLICK_TIME {
                    let c: u32 = if t.click_count < u32::MAX {
                        t.click_count + 1
                    } else {
                        t.click_count
                    };
                    self.graph.set_tracker(
                        click.entity,
                        ClickTracker { last_click_time: Some(now_ms), click_count: c },
                    );
                    if c == RENAME_CLICK_COUNT {
                        let label = self.graph.vertex_label(click.entity).unwrap();
                        self.renaming = RenamingState {
                            active: true,
                            entity: Some(click.entity),
                            temp_text: label,
                            screen_position: anchor,
                        };
                        VertexClickOutcome::RenameStarted
                    } else {
                        VertexClickOutcome::Counted
                    }
                } else {
                    self.graph.set_tracker(
                        click.entity,
                        ClickTracker { last_click_time: Some(now_ms), click_count: 1 },
                    );
                    VertexClickOutcome::Counted
                }
            },
        }
    }

    /// A secondary-button drag start on a vertex arms the temporary
    /// edge: its source becomes the dragged vertex and its floating end
    /// the pointer position.  A primary-button drag start does nothing;
    /// the move itself happens sample by sample while dragging.
    pub fn on_vertex_dragged(
        &mut self,
        vertex: VertexId,
        button: PointerButton,
        world_position: Position,
    )
        requires
            old(self).wf(),
        ensures
            final(self).wf(),
            button is Secondary ==> final(self).temp_edge == (TemporaryDirectedEdge {
                from: Some(vertex),
                to: world_position,
            }) && final(self).graph == old(self).graph && final(self).undo_redo == old(self).undo_redo && final(self).hovered == old(self).hovered && final(self).renaming == old(self).renaming,
            button is Primary ==> *final(self) == *old(self),
    {
        match button {
            PointerButton::Secondary => {
                self.temp_edge = TemporaryDirectedEdge { from: Some(vertex), to: world_position };
            },
            PointerButton::Primary => {},
        }
    }

    /// A drag sample.  With the primary button the vertex follows the
    /// pointer: each sample is a separately recorded move, and if this
    /// vertex is being renamed the rename anchor follows too.  With the
    /// secondary button only the temporary edge's floating end moves.
    pub fn vertex_dragging(&mut self, drag: VertexDraggingEvent, anchor: Position)
        requires
            old(self).wf(),
        ensures
            final(self).wf(),
            final(self).undo_redo.capacity() == old(self).undo_redo.capacity(),
            final(self).hovered == old(self).hovered,
            drag.button is Secondary ==> final(self).temp_edge == (TemporaryDirectedEdge {
                from: old(self).temp_edge.from,
                to: drag.world_position,
            }) && final(self).graph == old(self).graph && final(self).undo_redo == old(self).undo_redo && final(self).renaming == old(self).renaming,
            drag.button is Primary ==> ({
                &&& final(self).temp_edge == old(self).temp_edge
                &&& (old(self).renaming.active && old(self).renaming.entity == Some(drag.entity)
                    ==> final(self).renaming.active == old(self).renaming.active && final(self).renaming.entity == old(self).renaming.entity && final(self).renaming.temp_text
                    == old(self).renaming.temp_text && final(self).renaming.screen_position
                    == anchor)
                &&& (!(old(self).renaming.active && old(self).renaming.entity == Some(
                    drag.entity,
                )) ==> final(self).renaming == old(self).renaming)
                &&& (old(self).graph@.vertices.dom().contains(drag.entity) ==> ({
                    let m = MutationView::Move {
                        vertex: drag.entity,
                        position: drag.world_position,
                    };
                    &&& final(self).graph@ == recorded_graph(
                        old(self).graph@,
                        m,
                        old(self).undo_redo.undo_view(),
                        old(self).undo_redo.capacity(),
                    )
                    &&& final(self).undo_redo.undo_view() == recorded_undo(
                        old(self).graph@,
                        m,
                        old(self).undo_redo.undo_view(),
                        old(self).undo_redo.capacity(),
                    )
                    &&& final(self).undo_redo.redo_view() == Seq::<ActionView>::empty()
                }))
                &&& (!old(self).graph@.vertices.dom().contains(drag.entity) ==> final(self).graph
                    == old(self).graph && final(self).undo_redo == old(self).undo_redo)
            }),
    {
        match drag.button {
            PointerButton::Primary => {
                let refresh = self.renaming.active && match self.renaming.entity {
                    Some(e) => e.0 == drag.entity.0,
                    None => false,
                };
                if refresh {
                    self.renaming.screen_position = anchor;
                }
                move_vertex(
                    &mut self.graph,
                    &mut self.undo_redo,
                    drag.entity,
                    drag.world_position,
                );
            },
            PointerButton::Secondary => {
                self.temp_edge.to = drag.world_position;
            },
        }
    }

    /// The pointer entered a vertex: remember it in the hover slot.
    pub fn on_vertex_hovered(&mut self, vertex: VertexId)
        requires
            old(self).wf(),
        ensures
            final(self).wf(),
            final(self).hovered.0 == Some(GraphHandle::Vertex(vertex)),
            final(self).graph == old(self).graph,
            final(self).undo_redo == old(self).undo_redo,
            final(self).temp_edge == old(self).temp_edge,
            final(self).renaming == old(self).renaming,
    {
        self.hovered = HoveredEntity(Some(GraphHandle::Vertex(vertex)));
    }

    /// The pointer left a vertex: clear the hover slot.
    pub fn on_vertex_out(&mut self)
        requires
            old(self).wf(),
        ensures
            final(self).wf(),
            final(self).hovered.0 is None,
            final(self).graph == old(self).graph,
            final(self).undo_redo == old(self).undo_redo,
            final(self).temp_edge == old(self).temp_edge,
            final(self).renaming == old(self).renaming,
    {
        self.hovered = HoveredEntity(None);
    }

    /// The pointer entered an edge: remember it in the hover slot.
    pub fn on_edge_hovered(&mut self, edge: EdgeId)
        requires
            old(self).wf(),
        ensures
            final(self).wf(),
            final(self).hovered.0 == Some(GraphHandle::Edge(edge)),
            final(self).graph == old(self).graph,
            final(self).undo_redo == old(self).undo_redo,
            final(self).temp_edge == old(self).temp_edge,
            final(self).renaming == old(self).renaming,
    {
        self.hovered = HoveredEntity(Some(GraphHandle::Edge(edge)));
    }

    /// The pointer left an edge: clear the hover slot.
    pub fn on_edge_out(&mut self)
        requires
            old(self).wf(),
        ensures
            final(self).wf(),
            final(self).hovered.0 is None,
            final(self).graph == old(self).graph,
            final(self).undo_redo == old(self).undo_redo,
            final(self).temp_edge == old(self).temp_edge,
            final(self).renaming == old(self).renaming,
    {
        self.hovered = HoveredEntity(None);
    }

    /// Apply a committed rename.  A manual rename records the old label
    /// as its inverse and clears the redo history; a replayed one only
    /// sets the label.  A rename of a vanished vertex is dropped.
    pub fn on_vertex_renamed(&mut self, event: VertexRenamedEvent) -> (applied: bool)
        requires
            old(self).wf(),
        ensures
            final(self).wf(),
            final(self).undo_redo.capacity() == old(self).undo_redo.capacity(),
            applied == old(self).graph@.vertices.dom().contains(event.entity),
            applied && event.manual ==> ({
                let m = MutationView::Rename { vertex: event.entity, label: event.new_label@ };
                &&& final(self).graph@ == recorded_graph(
                    old(self).graph@,
                    m,
                    old(self).undo_redo.undo_view(),
                    old(self).undo_redo.capacity(),
                )
                &&& final(self).undo_redo.undo_view() == recorded_undo(
                    old(self).graph@,
                    m,
                    old(self).undo_redo.undo_view(),
                    old(self).undo_redo.capacity(),
                )
                &&& final(self).undo_redo.redo_view() == Seq::<ActionView>::empty()
            }),
            applied && !event.manual ==> final(self).graph@ == rename_effect(
                old(self).graph@,
                event.entity,
                event.new_label@,
            ) && final(self).undo_redo == old(self).undo_redo,
            !applied ==> final(self).graph == old(self).graph && final(self).undo_redo == old(self).undo_redo,
            final(self).hovered == old(self).hovered,
            final(self).temp_edge == old(self).temp_edge,
            final(self).renaming == old(self).renaming,
    {
        rename_vertex(
            &mut self.graph,
            &mut self.undo_redo,
            event.entity,
            event.new_label,
            event.manual,
        )
    }

    /// Commit the rename in progress: the edited text becomes the
    /// vertex's label, recorded as a manual action, and rename mode
    /// ends.  Without an active rename nothing happens.
    pub fn submit_rename(&mut self) -> (applied: bool)
        requires
            old(self).wf(),
        ensures
            final(self).wf(),
            final(self).undo_redo.capacity() == old(self).undo_redo.capacity(),
            final(self).hovered == old(self).hovered,
            final(self).temp_edge == old(self).temp_edge,
            !old(self).renaming.active ==> !applied && *final(self) == *old(self),
            old(self).renaming.active ==> !final(self).renaming.active && final(self).renaming.entity == old(self).renaming.entity && final(self).renaming.temp_text
                == old(self).renaming.temp_text && final(self).renaming.screen_position == old(self).renaming.screen_position,
            old(self).renaming.active && old(self).renaming.entity is None ==> !applied && final(self).graph == old(self).graph && final(self).undo_redo == old(self).undo_redo,
            old(self).renaming.entity matches Some(v) ==> old(self).renaming.active ==> ({
                &&& applied == old(self).graph@.vertices.dom().contains(v)
                &&& (applied ==> ({
                    let m = MutationView::Rename {
                        vertex: v,
                        label: old(self).renaming.temp_text@,
                    };
                    &&& final(self).graph@ == recorded_graph(
                        old(self).graph@,
                        m,
                        old(self).undo_redo.undo_view(),
                        old(self).undo_redo.capacity(),
                    )
                    &&& final(self).undo_redo.undo_view() == recorded_undo(
                        old(self).graph@,
                        m,
                        old(self).undo_redo.undo_view(),
                        old(self).undo_redo.capacity(),
                    )
                    &&& final(self).undo_redo.redo_view() == Seq::<ActionView>::empty()
                }))
                &&& (!applied ==> final(self).graph == old(self).graph && final(self).undo_redo
                    == old(self).undo_redo)
            }),
    {
        if !self.renaming.active {
            return false;
        }
        let v = match self.renaming.entity {
            Some(v) => v,
            None => {
                self.renaming.active = false;
                return false;
            },
        };
        let text = self.renaming.temp_text.clone();
        self.renaming.active = false;
        rename_vertex(&mut self.graph, &mut self.undo_redo, v, text, true)
    }

    /// Abandon the rename in progress; the label stays as it was.
    pub fn cancel_rename(&mut self)
        requires
            old(self).wf(),
        ensures
            final(self).wf(),
            !final(self).renaming.active,
            final(self).renaming.entity == old(self).renaming.entity,
            final(self).renaming.temp_text == old(self).renaming.temp_text,
            final(self).renaming.screen_position == old(self).renaming.screen_position,
            final(self).graph == old(self).graph,
            final(self).undo_redo == old(self).undo_redo,
            final(self).hovered == old(self).hovered,
            final(self).temp_edge == old(self).temp_edge,
    {
        self.renaming.active = false;
    }

    /// A click on an edge deletes it when the delete modifier is held;
    /// otherwise a primary click places a new vertex on the edge,
    /// splitting it in two.  Either way the mutation is recorded.
    pub fn edge_clicked(&mut self, click: EdgeClickedEvent, delete_modifier: bool) -> (r: Option<
        (VertexId, EdgeId),
    >)
        requires
            old(self).wf(),
            old(self).graph.vertex_alloc_margin() >= 1,
            old(self).graph.edge_alloc_margin() >= 1,
        ensures
            final(self).wf(),
            final(self).undo_redo.capacity() == old(self).undo_redo.capacity(),
            final(self).temp_edge == old(self).temp_edge,
            final(self).renaming == old(self).renaming,
            (r is Some) == (old(self).graph@.edges.dom().contains(click.entity)
                && !delete_modifier && click.button is Primary),
            !old(self).graph@.edges.dom().contains(click.entity) ==> *final(self) == *old(self),
            old(self).graph@.edges.dom().contains(click.entity) && delete_modifier ==> ({
                let m = MutationView::DeleteEdge { edge: click.entity };
                &&& final(self).graph@ == recorded_graph(
                    old(self).graph@,
                    m,
                    old(self).undo_redo.undo_view(),
                    old(self).undo_redo.capacity(),
                )
                &&& final(self).undo_redo.undo_view() == recorded_undo(
                    old(self).graph@,
                    m,
                    old(self).undo_redo.undo_view(),
                    old(self).undo_redo.capacity(),
                )
                &&& final(self).undo_redo.redo_view() == Seq::<ActionView>::empty()
                &&& final(self).hovered.0 is None
            }),
            old(self).graph@.edges.dom().contains(click.entity) && !delete_modifier
                && click.button is Secondary ==> *final(self) == *old(self),
            r matches Some(pair) ==> ({
                let m = MutationView::Insert {
                    vertex: pair.0,
                    edge: click.entity,
                    second_edge: pair.1,
                    position: click.world_position,
                };
                &&& !old(self).graph@.vertices.dom().contains(pair.0)
                &&& !old(self).graph@.edges.dom().contains(pair.1)
                &&& pair.0.0 < u64::MAX
                &&& pair.1.0 < u64::MAX
                &&& final(self).graph@ == recorded_graph(
                    old(self).graph@,
                    m,
                    old(self).undo_redo.undo_view(),
                    old(self).undo_redo.capacity(),
                )
                &&& final(self).undo_redo.undo_view() == recorded_undo(
                    old(self).graph@,
                    m,
                    old(self).undo_redo.undo_view(),
                    old(self).undo_redo.capacity(),
                )
                &&& final(self).undo_redo.redo_view() == Seq::<ActionView>::empty()
                &&& final(self).hovered == old(self).hovered
            }),
    {
        if !self.graph.has_edge(click.entity) {
            return None;
        }
        if delete_modifier {
            delete_edge(&mut self.graph, &mut self.undo_redo, click.entity);
            self.hovered = HoveredEntity(None);
            return None;
        }
        match click.button {
            PointerButton::Primary => insert_vertex_on_edge(
                &mut self.graph,
                &mut self.undo_redo,
                click.entity,
                click.world_position,
            ),
            PointerButton::Secondary => None,
        }
    }

    /// The end of a secondary-button drag resolves its drop target
    /// through the hover slot: over a vertex, connect the dragged vertex
    /// to it; over an edge, split that edge by a new vertex at the drop
    /// point and connect to it; over nothing, spawn a vertex there and
    /// connect to it.  Every mutation is recorded, and the temporary
    /// edge's source is cleared afterwards in every case.  A
    /// primary-button drop does nothing further.
    pub fn vertex_drag_dropped(&mut self, drag: VertexDragDroppedEvent) -> (r:
        DragDropOutcome)
        requires
            old(self).wf(),
            old(self).graph.vertex_alloc_margin() >= 1,
            old(self).graph.edge_alloc_margin() >= 2,
        ensures
            final(self).wf(),
            final(self).undo_redo.capacity() == old(self).undo_redo.capacity(),
            final(self).hovered == old(self).hovered,
            final(self).renaming == old(self).renaming,
            drag.button is Primary ==> r is NoGesture && *final(self) == *old(self),
            drag.button is Secondary ==> final(self).temp_edge.from is None && final(self).temp_edge.to == old(self).temp_edge.to,
            drag.button is Secondary ==> ({
                let g0 = old(self).graph@;
                &&& (old(self).hovered.0 matches Some(GraphHandle::Vertex(hv)) ==> ((r
                    is Connected) == (g0.vertices.dom().contains(drag.entity)
                    && g0.vertices.dom().contains(hv))) && ((r is Dropped) == !(
                g0.vertices.dom().contains(drag.entity) && g0.vertices.dom().contains(hv))))
                &&& (old(self).hovered.0 matches Some(GraphHandle::Edge(he)) ==> (((r
                    is SplitAndConnected) || (r is SplitOnly)) == g0.edges.dom().contains(he))
                    && ((r is Dropped) == !g0.edges.dom().contains(he)))
                &&& (old(self).hovered.0 is None ==> ((r is SpawnedAndConnected) || (r
                    is SpawnedOnly)))
            }),
            ({
                let g0 = old(self).graph@;
                let u0 = old(self).undo_redo.undo_view();
                let cap = old(self).undo_redo.capacity();
                match r {
                    DragDropOutcome::NoGesture => drag.button is Primary,
                    DragDropOutcome::Dropped => drag.button is Secondary && final(self).graph
                        == old(self).graph && final(self).undo_redo == old(self).undo_redo,
                    DragDropOutcome::Connected(e) => ({
                        &&& drag.button is Secondary
                        &&& old(self).hovered.0 matches Some(GraphHandle::Vertex(hv))
                            && g0.vertices.dom().contains(drag.entity)
                            && g0.vertices.dom().contains(hv) && ({
                            let m = MutationView::Connect { edge: e, from: drag.entity, to: hv };
                            &&& !g0.edges.dom().contains(e)
                            &&& e.0 < u64::MAX
                            &&& final(self).graph@ == recorded_graph(g0, m, u0, cap)
                            &&& final(self).undo_redo.undo_view() == recorded_undo(g0, m, u0, cap)
                            &&& final(self).undo_redo.redo_view() == Seq::<ActionView>::empty()
                        })
                    }),
                    DragDropOutcome::SplitAndConnected(v, e2, e3) => ({
                        &&& drag.button is Secondary
                        &&& old(self).hovered.0 matches Some(GraphHandle::Edge(he))
                            && g0.edges.dom().contains(he) && ({
                            let m1 = MutationView::Insert {
                                vertex: v,
                                edge: he,
                                second_edge: e2,
                                position: drag.world_position,
                            };
                            let g1 = recorded_graph(g0, m1, u0, cap);
                            let u1 = recorded_undo(g0, m1, u0, cap);
                            let m2 = MutationView::Connect { edge: e3, from: drag.entity, to: v };
                            &&& !g0.vertices.dom().contains(v)
                            &&& !g0.edges.dom().contains(e2)
                            &&& v.0 < u64::MAX
                            &&& e2.0 < u64::MAX
                            &&& e3.0 < u64::MAX
                            &&& g1.vertices.dom().contains(drag.entity)
                            &&& g1.vertices.dom().contains(v)
                            &&& final(self).graph@ == recorded_graph(g1, m2, u1, cap)
                            &&& final(self).undo_redo.undo_view() == recorded_undo(g1, m2, u1, cap)
                            &&& final(self).undo_redo.redo_view() == Seq::<ActionView>::empty()
                        })
                    }),
                    DragDropOutcome::SplitOnly(v, e2) => ({
                        &&& drag.button is Secondary
                        &&& old(self).hovered.0 matches Some(GraphHandle::Edge(he))
                            && g0.edges.dom().contains(he) && ({
                            let m1 = MutationView::Insert {
                                vertex: v,
                                edge: he,
                                second_edge: e2,
                                position: drag.world_position,
                            };
                            let g1 = recorded_graph(g0, m1, u0, cap);
                            &&& v.0 < u64::MAX
                            &&& e2.0 < u64::MAX
                            &&& !(g1.vertices.dom().contains(drag.entity)
                                && g1.vertices.dom().contains(v))
                            &&& final(self).graph@ == g1
                            &&& final(self).undo_redo.undo_view() == recorded_undo(g0, m1, u0, cap)
                            &&& final(self).undo_redo.redo_view() == Seq::<ActionView>::empty()
                        })
                    }),
                    DragDropOutcome::SpawnedAndConnected(v, e) => ({
                        let m1 = MutationView::Spawn { vertex: v, position: drag.world_position };
                        let g1 = recorded_graph(g0, m1, u0, cap);
                        let u1 = recorded_undo(g0, m1, u0, cap);
                        let m2 = MutationView::Connect { edge: e, from: drag.entity, to: v };
                        &&& drag.button is Secondary
                        &&& old(self).hovered.0 is None
                        &&& !g0.vertices.dom().contains(v)
                        &&& v.0 < u64::MAX
                        &&& e.0 < u64::MAX
                        &&& g1.vertices.dom().contains(drag.entity)
                        &&& g1.vertices.dom().contains(v)
                        &&& final(self).graph@ == recorded_graph(g1, m2, u1, cap)
                        &&& final(self).undo_redo.undo_view() == recorded_undo(g1, m2, u1, cap)
                        &&& final(self).undo_redo.redo_view() == Seq::<ActionView>::empty()
                    }),
                    DragDropOutcome::SpawnedOnly(v) => ({
                        let m1 = MutationView::Spawn { vertex: v, position: drag.world_position };
                        let g1 = recorded_graph(g0, m1, u0, cap);
                        &&& drag.button is Secondary
                        &&& old(self).hovered.0 is None
                        &&& !g0.vertices.dom().contains(v)
                        &&& v.0 < u64::MAX
                        &&& !(g1.vertices.dom().contains(drag.entity)
                            && g1.vertices.dom().contains(v))
                        &&& final(self).graph@ == g1
                        &&& final(self).undo_redo.undo_view() == recorded_undo(g0, m1, u0, cap)
                        &&& final(self).undo_redo.redo_view() == Seq::<ActionView>::empty()
                    }),
                }
            }),
    {
        match drag.button {
            PointerButton::Primary => {
                return DragDropOutcome::NoGesture;
            },
            PointerButton::Secondary => {},
        }
        let outcome = match self.hovered.0 {
            Some(GraphHandle::Vertex(hv)) => {
                match connect_vertices(
                    &mut self.graph,
                    &mut self.undo_redo,
                    drag.entity,
                    hv,
                ) {
                    Some(e) => DragDropOutcome::Connected(e),
                    None => DragDropOutcome::Dropped,
                }
            },
            Some(GraphHandle::Edge(he)) => {
                match insert_vertex_on_edge(
                    &mut self.graph,
                    &mut self.undo_redo,
                    he,
                    drag.world_position,
                ) {
                    Some(pair) => {
                        match connect_vertices(
                            &mut self.graph,
                            &mut self.undo_redo,
                            drag.entity,
                            pair.0,
                        ) {
                            Some(e3) => DragDropOutcome::SplitAndConnected(pair.0, pair.1, e3),
                            None => DragDropOutcome::SplitOnly(pair.0, pair.1),
                        }
                    },
                    None => DragDropOutcome::Dropped,
                }
            },
            None => {
                let v = spawn_vertex(
                    &mut self.graph,
                    &mut self.undo_redo,
                    drag.world_position,
                );
                match connect_vertices(
                    &mut self.graph,
                    &mut self.undo_redo,
                    drag.entity,
                    v,
                ) {
                    Some(e) => DragDropOutcome::SpawnedAndConnected(v, e),
                    None => DragDropOutcome::SpawnedOnly(v),
                }
            },
        };
        self.temp_edge.from = None;
        outcome
    }

    /// Ctrl+Z on release undoes the latest action; otherwise Ctrl+Y on
    /// release redoes the latest undone one.  Anything else is ignored.
    pub fn undo_redo_system(&mut self, ctrl_held: bool, z_released: bool, y_released: bool)
        requires
            old(self).wf(),
        ensures
            final(self).wf(),
            final(self).undo_redo.capacity() == old(self).undo_redo.capacity(),
            final(self).hovered == old(self).hovered,
            final(self).temp_edge == old(self).temp_edge,
            final(self).renaming == old(self).renaming,
            !(ctrl_held && (z_released || y_released)) ==> *final(self) == *old(self),
            ctrl_held && z_released ==> ({
                let u0 = old(self).undo_redo.undo_view();
                &&& (u0.len() == 0 ==> final(self).undo_redo.undo_view() == u0 && final(self).undo_redo.redo_view() == old(self).undo_redo.redo_view() && final(self).graph
                    == old(self).graph)
                &&& (u0.len() > 0 ==> ({
                    let a = u0.last();
                    &&& final(self).undo_redo.undo_view() == u0.drop_last()
                    &&& (undo_applies(old(self).graph@, a) ==> final(self).graph@ == apply_undo(old(self).graph@, a) && final(self).undo_redo.redo_view() == old(self).undo_redo.redo_view().push(
                        captured_inverse(old(self).graph@, a),
                    ))
                    &&& (!undo_applies(old(self).graph@, a) ==> final(self).graph@ == old(self).graph@ && final(self).undo_redo.redo_view() == old(self).undo_redo.redo_view())
                }))
            }),
            ctrl_held && !z_released && y_released ==> ({
                let r0 = old(self).undo_redo.redo_view();
                &&& (r0.len() == 0 ==> final(self).undo_redo.redo_view() == r0 && final(self).undo_redo.undo_view() == old(self).undo_redo.undo_view() && final(self).graph
                    == old(self).graph)
                &&& (r0.len() > 0 ==> ({
                    let a = r0.last();
                    &&& final(self).undo_redo.redo_view() == r0.drop_last()
                    &&& (redo_applies(old(self).graph@, a) ==> final(self).graph@ == apply_redo(old(self).graph@, a) && final(self).undo_redo.undo_view() == old(self).undo_redo.undo_view().push(
                        captured_inverse(old(self).graph@, a),
                    ))
                    &&& (!redo_applies(old(self).graph@, a) ==> final(self).graph@ == old(self).graph@ && final(self).undo_redo.undo_view() == old(self).undo_redo.undo_view())
                }))
            }),
    {
        if ctrl_held {
            if z_released {
                self.undo_redo.undo(&mut self.graph);
            } else if y_released {
                self.undo_redo.redo(&mut self.graph);
            }
        }
    }

    /// Decide the cursor shape from the hover slot, the graph and the
    /// delete modifier.
    pub fn cursor_icon_manager(&self, delete_modifier: bool) -> (r: UpdateCursorIconEvent)
        requires
            self.wf(),
        ensures
            r.new_icon == cursor_icon_spec(self.graph@, self.hovered.0, delete_modifier),
    {
        let new_icon = match self.hovered.0 {
            None => CursorIconKind::Default,
            Some(h) => {
                if delete_modifier {
                    CursorIconKind::Crosshair
                } else {
                    match h {
                        GraphHandle::Vertex(v) => {
                            if self.graph.has_vertex(v) {
                                CursorIconKind::Grab
                            } else {
                                CursorIconKind::Default
                            }
                        },
                        GraphHandle::Edge(e) => {
                            if self.graph.has_edge(e) {
                                CursorIconKind::Cell
                            } else {
                                CursorIconKind::Default
                            }
                        },
                    }
                }
            },
        };
        UpdateCursorIconEvent { new_icon }
    }
}

} // verus!
