//! The pointer events the gesture interpreter consumes, already resolved
//! to world-space coordinates and target handles, and the signals it
//! hands back to the window.

use vstd::prelude::*;

use crate::components::{CursorIconKind, EdgeId, Position, VertexId};

verus! {

/// Which pointer button drove a gesture.
#[derive(Clone, Copy, Debug, PartialEq, Eq, Structural)]
pub enum PointerButton {
    Primary,
    Secondary,
}

/// A vertex rename was committed with this new label.  `manual` tells a
/// user-entered rename apart from an undo/redo replay.
pub struct VertexRenamedEvent {
    pub entity: VertexId,
    pub new_label: String,
    pub manual: bool,
}

/// The canvas background was clicked.
#[derive(Clone, Copy, Debug, PartialEq, Eq, Structural)]
pub struct CanvasClickedEvent {
    pub button: PointerButton,
    pub world_position: Position,
}

/// A vertex was clicked.
#[derive(Clone, Copy, Debug, PartialEq, Eq, Structural)]
pub struct VertexClickedEvent {
    pub entity: VertexId,
    pub world_position: Position,
}

/// A drag that started on a vertex ended.
#[derive(Clone, Copy, Debug, PartialEq, Eq, Structural)]
pub struct VertexDragDroppedEvent {
    pub entity: VertexId,
    pub button: PointerButton,
    pub world_position: Position,
}

/// A vertex is being dragged and the pointer moved.
#[derive(Clone, Copy, Debug, PartialEq, Eq, Structural)]
pub struct VertexDraggingEvent {
    pub entity: VertexId,
    pub button: PointerButton,
    pub world_position: Position,
}

/// An edge was clicked.
#[derive(Clone, Copy, Debug, PartialEq, Eq, Structural)]
pub struct EdgeClickedEvent {
    pub entity: EdgeId,
    pub button: PointerButton,
    pub world_position: Position,
}

/// A vertex should be placed on this edge at this point.
#[derive(Clone, Copy, Debug, PartialEq, Eq, Structural)]
pub struct InsertVertexOnEdgeEvent {
    pub clicked_edge: EdgeId,
    pub world_position: Position,
}

/// The window should switch to this cursor shape.
#[derive(Clone, Copy, Debug, PartialEq, Eq, Structural)]
pub struct UpdateCursorIconEvent {
    pub new_icon: CursorIconKind,
}

} // verus!
