//! Gesture interpretation: click counting and renaming, delete-modifier
//! clicks, dragging, drop-target resolution, hover and the cursor icon.

use graph_editor::components::{CursorIconKind, GraphHandle, Position};
use graph_editor::events::{
    CanvasClickedEvent, EdgeClickedEvent, PointerButton, VertexClickedEvent,
    VertexDragDroppedEvent, VertexDraggingEvent, VertexRenamedEvent,
};
use graph_editor::mutator::{connect_vertices, spawn_vertex};
use graph_editor::session::{DragDropOutcome, EditorSession, VertexClickOutcome};

fn pos(x: i64, y: i64) -> Position {
    Position { x, y }
}

fn click_on(v: graph_editor::components::VertexId, at: Position) -> VertexClickedEvent {
    VertexClickedEvent { entity: v, world_position: at }
}

#[test]
fn two_quick_clicks_start_renaming() {
    // Two clicks 100 ms apart reach the threshold.
    let mut s = EditorSession::new();
    let v = spawn_vertex(&mut s.graph, &mut s.undo_redo, pos(0, 0));
    let first = s.click_vertex(click_on(v, pos(0, 0)), 1000, false, pos(50, 50));
    assert_eq!(first, VertexClickOutcome::Counted);
    assert!(!s.renaming.active);
    let second = s.click_vertex(click_on(v, pos(0, 0)), 1100, false, pos(50, 50));
    assert_eq!(second, VertexClickOutcome::RenameStarted);
    assert!(s.renaming.active);
    assert_eq!(s.renaming.entity, Some(v));
    assert_eq!(s.renaming.temp_text, String::new());
    assert_eq!(s.renaming.screen_position, pos(50, 50));
}

#[test]
fn two_slow_clicks_do_not_start_renaming() {
    // Two clicks 400 ms apart fall outside the window: the count
    // resets to one and no rename starts.
    let mut s = EditorSession::new();
    let v = spawn_vertex(&mut s.graph, &mut s.undo_redo, pos(0, 0));
    assert_eq!(
        s.click_vertex(click_on(v, pos(0, 0)), 1000, false, pos(0, 0)),
        VertexClickOutcome::Counted
    );
    assert_eq!(
        s.click_vertex(click_on(v, pos(0, 0)), 1400, false, pos(0, 0)),
        VertexClickOutcome::Counted
    );
    assert!(!s.renaming.active);
    // The slow click restarted the run: one more quick click completes
    // a double click.
    assert_eq!(
        s.click_vertex(click_on(v, pos(0, 0)), 1500, false, pos(0, 0)),
        VertexClickOutcome::RenameStarted
    );
    assert!(s.renaming.active);
}

#[test]
fn rename_uses_current_label_as_text() {
    let mut s = EditorSession::new();
    let v = spawn_vertex(&mut s.graph, &mut s.undo_redo, pos(0, 0));
    s.on_vertex_renamed(VertexRenamedEvent {
        entity: v,
        new_label: String::from("alpha"),
        manual: true,
    });
    s.click_vertex(click_on(v, pos(0, 0)), 2000, false, pos(9, 9));
    s.click_vertex(click_on(v, pos(0, 0)), 2100, false, pos(9, 9));
    assert!(s.renaming.active);
    assert_eq!(s.renaming.temp_text, String::from("alpha"));
}

#[test]
fn delete_modifier_click_deletes_vertex_immediately() {
    let mut s = EditorSession::new();
    let v = spawn_vertex(&mut s.graph, &mut s.undo_redo, pos(0, 0));
    s.on_vertex_hovered(v);
    let r = s.click_vertex(click_on(v, pos(0, 0)), 1000, true, pos(0, 0));
    assert_eq!(r, VertexClickOutcome::Deleted);
    assert!(!s.graph.has_vertex(v));
    assert!(s.hovered.0.is_none());
}

#[test]
fn click_on_vanished_vertex_is_ignored() {
    let mut s = EditorSession::new();
    let v = spawn_vertex(&mut s.graph, &mut s.undo_redo, pos(0, 0));
    s.click_vertex(click_on(v, pos(0, 0)), 1000, true, pos(0, 0));
    let r = s.click_vertex(click_on(v, pos(0, 0)), 1100, false, pos(0, 0));
    assert_eq!(r, VertexClickOutcome::Ignored);
}

#[test]
fn submit_rename_applies_and_is_undoable() {
    let mut s = EditorSession::new();
    let v = spawn_vertex(&mut s.graph, &mut s.undo_redo, pos(0, 0));
    s.click_vertex(click_on(v, pos(0, 0)), 1000, false, pos(0, 0));
    s.click_vertex(click_on(v, pos(0, 0)), 1100, false, pos(0, 0));
    assert!(s.renaming.active);
    s.renaming.temp_text = String::from("node one");
    assert!(s.submit_rename());
    assert!(!s.renaming.active);
    assert_eq!(s.graph.vertex_label(v), Some(String::from("node one")));
    s.undo_redo.undo(&mut s.graph);
    assert_eq!(s.graph.vertex_label(v), Some(String::new()));
}

#[test]
fn cancel_rename_keeps_the_label() {
    let mut s = EditorSession::new();
    let v = spawn_vertex(&mut s.graph, &mut s.undo_redo, pos(0, 0));
    s.click_vertex(click_on(v, pos(0, 0)), 1000, false, pos(0, 0));
    s.click_vertex(click_on(v, pos(0, 0)), 1100, false, pos(0, 0));
    s.renaming.temp_text = String::from("discarded");
    s.cancel_rename();
    assert!(!s.renaming.active);
    assert_eq!(s.graph.vertex_label(v), Some(String::new()));
}

#[test]
fn secondary_drag_arms_and_moves_the_temporary_edge() {
    let mut s = EditorSession::new();
    let v = spawn_vertex(&mut s.graph, &mut s.undo_redo, pos(0, 0));
    s.on_vertex_dragged(v, PointerButton::Secondary, pos(3, 3));
    assert_eq!(s.temp_edge.from, Some(v));
    assert_eq!(s.temp_edge.to, pos(3, 3));
    s.vertex_dragging(
        VertexDraggingEvent { entity: v, button: PointerButton::Secondary, world_position: pos(6, 6) },
        pos(0, 0),
    );
    assert_eq!(s.temp_edge.from, Some(v));
    assert_eq!(s.temp_edge.to, pos(6, 6));
    // No graph mutation happened yet.
    assert_eq!(s.graph.vertex_position(v), Some(pos(0, 0)));
    assert_eq!(s.undo_redo.undo_len(), 1);
}

#[test]
fn primary_drag_moves_the_vertex_step_by_step() {
    let mut s = EditorSession::new();
    let v = spawn_vertex(&mut s.graph, &mut s.undo_redo, pos(0, 0));
    s.vertex_dragging(
        VertexDraggingEvent { entity: v, button: PointerButton::Primary, world_position: pos(1, 0) },
        pos(0, 0),
    );
    s.vertex_dragging(
        VertexDraggingEvent { entity: v, button: PointerButton::Primary, world_position: pos(2, 0) },
        pos(0, 0),
    );
    assert_eq!(s.graph.vertex_position(v), Some(pos(2, 0)));
    // Each sample is its own undoable step.
    s.undo_redo.undo(&mut s.graph);
    assert_eq!(s.graph.vertex_position(v), Some(pos(1, 0)));
    s.undo_redo.undo(&mut s.graph);
    assert_eq!(s.graph.vertex_position(v), Some(pos(0, 0)));
}

#[test]
fn rename_anchor_follows_the_dragged_vertex() {
    let mut s = EditorSession::new();
    let v = spawn_vertex(&mut s.graph, &mut s.undo_redo, pos(0, 0));
    s.click_vertex(click_on(v, pos(0, 0)), 1000, false, pos(10, 10));
    s.click_vertex(click_on(v, pos(0, 0)), 1100, false, pos(10, 10));
    assert!(s.renaming.active);
    s.vertex_dragging(
        VertexDraggingEvent { entity: v, button: PointerButton::Primary, world_position: pos(4, 4) },
        pos(77, 88),
    );
    assert_eq!(s.renaming.screen_position, pos(77, 88));
    assert_eq!(s.renaming.temp_text, String::new());
}

#[test]
fn anchor_stays_put_without_an_active_rename() {
    let mut s = EditorSession::new();
    let v = spawn_vertex(&mut s.graph, &mut s.undo_redo, pos(0, 0));
    s.vertex_dragging(
        VertexDraggingEvent { entity: v, button: PointerButton::Primary, world_position: pos(4, 4) },
        pos(77, 88),
    );
    assert!(!s.renaming.active);
    assert_eq!(s.renaming.screen_position, pos(0, 0));
}

#[test]
fn drop_on_hovered_vertex_connects() {
    let mut s = EditorSession::new();
    let a = spawn_vertex(&mut s.graph, &mut s.undo_redo, pos(0, 0));
    let b = spawn_vertex(&mut s.graph, &mut s.undo_redo, pos(10, 10));
    s.on_vertex_dragged(a, PointerButton::Secondary, pos(0, 0));
    s.on_vertex_hovered(b);
    let r = s.vertex_drag_dropped(VertexDragDroppedEvent {
        entity: a,
        button: PointerButton::Secondary,
        world_position: pos(10, 10),
    });
    match r {
        DragDropOutcome::Connected(e) => {
            let d = s.graph.edge_endpoints(e).unwrap();
            assert_eq!(d.from, a);
            assert_eq!(d.to, b);
        },
        other => panic!("expected a connection, got {:?}", other),
    }
    assert!(s.temp_edge.from.is_none());
    assert_eq!(s.graph.vertex_count(), 2);
}

#[test]
fn drop_on_empty_canvas_spawns_and_connects() {
    let mut s = EditorSession::new();
    let a = spawn_vertex(&mut s.graph, &mut s.undo_redo, pos(0, 0));
    s.on_vertex_dragged(a, PointerButton::Secondary, pos(0, 0));
    let r = s.vertex_drag_dropped(VertexDragDroppedEvent {
        entity: a,
        button: PointerButton::Secondary,
        world_position: pos(20, 20),
    });
    match r {
        DragDropOutcome::SpawnedAndConnected(v, e) => {
            assert_eq!(s.graph.vertex_position(v), Some(pos(20, 20)));
            let d = s.graph.edge_endpoints(e).unwrap();
            assert_eq!(d.from, a);
            assert_eq!(d.to, v);
        },
        other => panic!("expected spawn and connection, got {:?}", other),
    }
    assert_eq!(s.graph.vertex_count(), 2);
    assert_eq!(s.graph.edge_count(), 1);
    assert!(s.temp_edge.from.is_none());
}

#[test]
fn drop_on_hovered_edge_splits_and_connects() {
    let mut s = EditorSession::new();
    let a = spawn_vertex(&mut s.graph, &mut s.undo_redo, pos(0, 0));
    let b = spawn_vertex(&mut s.graph, &mut s.undo_redo, pos(10, 0));
    let c = spawn_vertex(&mut s.graph, &mut s.undo_redo, pos(5, 8));
    let e = connect_vertices(&mut s.graph, &mut s.undo_redo, a, b).unwrap();
    s.on_vertex_dragged(c, PointerButton::Secondary, pos(5, 8));
    s.on_edge_hovered(e);
    let r = s.vertex_drag_dropped(VertexDragDroppedEvent {
        entity: c,
        button: PointerButton::Secondary,
        world_position: pos(5, 0),
    });
    match r {
        DragDropOutcome::SplitAndConnected(p, e2, e3) => {
            assert_eq!(s.graph.vertex_position(p), Some(pos(5, 0)));
            let first = s.graph.edge_endpoints(e).unwrap();
            assert_eq!(first.from, a);
            assert_eq!(first.to, p);
            let second = s.graph.edge_endpoints(e2).unwrap();
            assert_eq!(second.from, p);
            assert_eq!(second.to, b);
            let third = s.graph.edge_endpoints(e3).unwrap();
            assert_eq!(third.from, c);
            assert_eq!(third.to, p);
        },
        other => panic!("expected split and connection, got {:?}", other),
    }
    assert_eq!(s.graph.vertex_count(), 4);
    assert_eq!(s.graph.edge_count(), 3);
    assert!(s.temp_edge.from.is_none());
}

#[test]
fn drop_on_stale_hovered_vertex_is_dropped() {
    let mut s = EditorSession::new();
    let a = spawn_vertex(&mut s.graph, &mut s.undo_redo, pos(0, 0));
    let b = spawn_vertex(&mut s.graph, &mut s.undo_redo, pos(10, 10));
    s.on_vertex_dragged(a, PointerButton::Secondary, pos(0, 0));
    s.on_vertex_hovered(b);
    // The hovered vertex vanishes before the drop.
    graph_editor::mutator::delete_vertex(&mut s.graph, &mut s.undo_redo, b);
    let before_undo = s.undo_redo.undo_len();
    let r = s.vertex_drag_dropped(VertexDragDroppedEvent {
        entity: a,
        button: PointerButton::Secondary,
        world_position: pos(10, 10),
    });
    assert_eq!(r, DragDropOutcome::Dropped);
    assert_eq!(s.graph.edge_count(), 0);
    assert_eq!(s.undo_redo.undo_len(), before_undo);
    assert!(s.temp_edge.from.is_none());
}

#[test]
fn primary_drop_does_nothing_further() {
    let mut s = EditorSession::new();
    let a = spawn_vertex(&mut s.graph, &mut s.undo_redo, pos(0, 0));
    let r = s.vertex_drag_dropped(VertexDragDroppedEvent {
        entity: a,
        button: PointerButton::Primary,
        world_position: pos(9, 9),
    });
    assert_eq!(r, DragDropOutcome::NoGesture);
    assert_eq!(s.graph.vertex_count(), 1);
    assert_eq!(s.graph.edge_count(), 0);
}

#[test]
fn edge_click_with_delete_modifier_deletes_it() {
    let mut s = EditorSession::new();
    let a = spawn_vertex(&mut s.graph, &mut s.undo_redo, pos(0, 0));
    let b = spawn_vertex(&mut s.graph, &mut s.undo_redo, pos(10, 0));
    let e = connect_vertices(&mut s.graph, &mut s.undo_redo, a, b).unwrap();
    s.on_edge_hovered(e);
    let r = s.edge_clicked(
        EdgeClickedEvent { entity: e, button: PointerButton::Primary, world_position: pos(5, 0) },
        true,
    );
    assert!(r.is_none());
    assert!(!s.graph.has_edge(e));
    assert!(s.hovered.0.is_none());
    assert_eq!(s.graph.vertex_count(), 2);
}

#[test]
fn edge_click_without_modifier_inserts_a_vertex() {
    let mut s = EditorSession::new();
    let a = spawn_vertex(&mut s.graph, &mut s.undo_redo, pos(0, 0));
    let b = spawn_vertex(&mut s.graph, &mut s.undo_redo, pos(10, 0));
    let e = connect_vertices(&mut s.graph, &mut s.undo_redo, a, b).unwrap();
    let r = s.edge_clicked(
        EdgeClickedEvent { entity: e, button: PointerButton::Primary, world_position: pos(4, 0) },
        false,
    );
    let (p, e2) = r.unwrap();
    assert_eq!(s.graph.vertex_position(p), Some(pos(4, 0)));
    assert_eq!(s.graph.edge_endpoints(e).unwrap().to, p);
    assert_eq!(s.graph.edge_endpoints(e2).unwrap().from, p);
    assert_eq!(s.graph.edge_count(), 2);
}

#[test]
fn undo_redo_key_combination_drives_the_ledger() {
    let mut s = EditorSession::new();
    let r = s.canvas_clicked(CanvasClickedEvent {
        button: PointerButton::Primary,
        world_position: pos(0, 0),
    });
    let v = r.unwrap();
    s.undo_redo_system(true, true, false);
    assert!(!s.graph.has_vertex(v));
    s.undo_redo_system(true, false, true);
    assert!(s.graph.has_vertex(v));
    // Without the modifier the keys do nothing.
    s.undo_redo_system(false, true, false);
    assert!(s.graph.has_vertex(v));
}

#[test]
fn cursor_icon_reflects_hover_and_modifier() {
    let mut s = EditorSession::new();
    let a = spawn_vertex(&mut s.graph, &mut s.undo_redo, pos(0, 0));
    let b = spawn_vertex(&mut s.graph, &mut s.undo_redo, pos(5, 0));
    let e = connect_vertices(&mut s.graph, &mut s.undo_redo, a, b).unwrap();
    assert_eq!(s.cursor_icon_manager(false).new_icon, CursorIconKind::Default);
    s.on_vertex_hovered(a);
    assert_eq!(s.cursor_icon_manager(false).new_icon, CursorIconKind::Grab);
    assert_eq!(s.cursor_icon_manager(true).new_icon, CursorIconKind::Crosshair);
    s.on_edge_hovered(e);
    assert_eq!(s.cursor_icon_manager(false).new_icon, CursorIconKind::Cell);
    s.on_edge_out();
    assert_eq!(s.cursor_icon_manager(false).new_icon, CursorIconKind::Default);
    assert_eq!(s.hovered.0, None);
    s.on_vertex_hovered(b);
    assert_eq!(s.hovered.0, Some(GraphHandle::Vertex(b)));
    s.on_vertex_out();
    assert_eq!(s.hovered.0, None);
}

#[test]
fn replayed_rename_records_nothing() {
    let mut s = EditorSession::new();
    let v = spawn_vertex(&mut s.graph, &mut s.undo_redo, pos(0, 0));
    let before = s.undo_redo.undo_len();
    assert!(s.on_vertex_renamed(VertexRenamedEvent {
        entity: v,
        new_label: String::from("silent"),
        manual: false,
    }));
    assert_eq!(s.graph.vertex_label(v), Some(String::from("silent")));
    assert_eq!(s.undo_redo.undo_len(), before);
}
