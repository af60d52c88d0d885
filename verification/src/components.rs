//! The data carried by the objects of the diagram: handles, coordinates,
//! vertices, edges, and the per-vertex click bookkeeping.

use vstd::prelude::*;

verus! {

/// Stable, opaque handle of a vertex in the graph store.
#[derive(Clone, Copy, Debug, PartialEq, Eq, Structural, Hash)]
pub struct VertexId(pub u64);

/// Stable, opaque handle of a directed edge in the graph store.
#[derive(Clone, Copy, Debug, PartialEq, Eq, Structural, Hash)]
pub struct EdgeId(pub u64);

/// Either kind of pickable object; this is what the hover slot holds.
#[derive(Clone, Copy, Debug, PartialEq, Eq, Structural)]
pub enum GraphHandle {
    Vertex(VertexId),
    Edge(EdgeId),
}

/// A world-space coordinate.  The editor never does arithmetic on
/// coordinates; it stores and compares them, so they are kept as plain
/// integers and the viewport conversion stays with the caller.
#[derive(Clone, Copy, Debug, PartialEq, Eq, Structural)]
pub struct Position {
    pub x: i64,
    pub y: i64,
}

/// A vertex's displayed data: its label.
#[derive(Clone, Debug)]
pub struct Vertex {
    pub label: String,
}

/// A directed connection between two vertices.
#[derive(Clone, Copy, Debug, PartialEq, Eq, Structural)]
pub struct DirectedEdge {
    pub from: VertexId,
    pub to: VertexId,
}

/// The singleton edge-in-progress shown while a secondary-button drag is
/// active.  While `from` is unset nothing is drawn.
#[derive(Clone, Copy, Debug)]
pub struct TemporaryDirectedEdge {
    pub from: Option<VertexId>,
    pub to: Position,
}

/// Per-vertex click bookkeeping used to detect a double click within the
/// configured window.  Times are clock readings in milliseconds.
#[derive(Clone, Copy, Debug)]
pub struct ClickTracker {
    pub last_click_time: Option<u64>,
    pub click_count: u32,
}

/// The cursor shape the editor asks the window to show.
#[derive(Clone, Copy, Debug, PartialEq, Eq, Structural)]
pub enum CursorIconKind {
    Default,
    Grab,
    Cell,
    Crosshair,
}

impl ClickTracker {
    /// A tracker that has seen no click yet.
    pub open spec fn initial() -> ClickTracker {
        ClickTracker { last_click_time: None, click_count: 0 }
    }
}

} // verus!
