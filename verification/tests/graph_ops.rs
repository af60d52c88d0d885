//! Mutation operations: spawning, deleting with cascade, connecting,
//! splitting an edge by an inserted vertex.

use graph_editor::components::Position;
use graph_editor::events::{CanvasClickedEvent, PointerButton};
use graph_editor::mutator::{
    connect_vertices, delete_edge, delete_vertex, insert_vertex_on_edge, move_vertex,
    rename_vertex, spawn_vertex,
};
use graph_editor::session::EditorSession;

fn pos(x: i64, y: i64) -> Position {
    Position { x, y }
}

#[test]
fn spawn_sets_position_and_empty_label() {
    let mut s = EditorSession::new();
    let v = spawn_vertex(&mut s.graph, &mut s.undo_redo, pos(3, 4));
    assert!(s.graph.has_vertex(v));
    assert_eq!(s.graph.vertex_position(v), Some(pos(3, 4)));
    assert_eq!(s.graph.vertex_label(v), Some(String::new()));
    assert_eq!(s.graph.vertex_count(), 1);
    assert_eq!(s.undo_redo.undo_len(), 1);
}

#[test]
fn canvas_click_primary_spawns_secondary_does_not() {
    let mut s = EditorSession::new();
    let r = s.canvas_clicked(CanvasClickedEvent {
        button: PointerButton::Primary,
        world_position: pos(10, 20),
    });
    assert!(r.is_some());
    assert_eq!(s.graph.vertex_count(), 1);
    let r2 = s.canvas_clicked(CanvasClickedEvent {
        button: PointerButton::Secondary,
        world_position: pos(1, 1),
    });
    assert!(r2.is_none());
    assert_eq!(s.graph.vertex_count(), 1);
}

#[test]
fn connect_creates_edge_with_given_endpoints() {
    let mut s = EditorSession::new();
    let a = spawn_vertex(&mut s.graph, &mut s.undo_redo, pos(0, 0));
    let b = spawn_vertex(&mut s.graph, &mut s.undo_redo, pos(5, 5));
    let e = connect_vertices(&mut s.graph, &mut s.undo_redo, a, b).unwrap();
    let d = s.graph.edge_endpoints(e).unwrap();
    assert_eq!(d.from, a);
    assert_eq!(d.to, b);
    assert_eq!(s.graph.edge_count(), 1);
}

#[test]
fn connect_stale_vertex_is_dropped() {
    let mut s = EditorSession::new();
    let a = spawn_vertex(&mut s.graph, &mut s.undo_redo, pos(0, 0));
    let b = spawn_vertex(&mut s.graph, &mut s.undo_redo, pos(5, 5));
    assert!(delete_vertex(&mut s.graph, &mut s.undo_redo, b));
    let r = connect_vertices(&mut s.graph, &mut s.undo_redo, a, b);
    assert!(r.is_none());
    assert_eq!(s.graph.edge_count(), 0);
}

#[test]
fn delete_vertex_removes_all_incident_edges() {
    // Deleting a vertex removes every edge where it is `from` or `to`.
    let mut s = EditorSession::new();
    let a = spawn_vertex(&mut s.graph, &mut s.undo_redo, pos(0, 0));
    let b = spawn_vertex(&mut s.graph, &mut s.undo_redo, pos(1, 0));
    let c = spawn_vertex(&mut s.graph, &mut s.undo_redo, pos(2, 0));
    let ab = connect_vertices(&mut s.graph, &mut s.undo_redo, a, b).unwrap();
    let bc = connect_vertices(&mut s.graph, &mut s.undo_redo, b, c).unwrap();
    let ac = connect_vertices(&mut s.graph, &mut s.undo_redo, a, c).unwrap();
    assert!(delete_vertex(&mut s.graph, &mut s.undo_redo, b));
    assert!(!s.graph.has_vertex(b));
    assert!(s.graph.has_vertex(a));
    assert!(s.graph.has_vertex(c));
    assert!(!s.graph.has_edge(ab));
    assert!(!s.graph.has_edge(bc));
    assert!(s.graph.has_edge(ac));
    assert_eq!(s.graph.edge_count(), 1);
}

#[test]
fn delete_edge_removes_only_that_edge() {
    let mut s = EditorSession::new();
    let a = spawn_vertex(&mut s.graph, &mut s.undo_redo, pos(0, 0));
    let b = spawn_vertex(&mut s.graph, &mut s.undo_redo, pos(1, 0));
    let ab = connect_vertices(&mut s.graph, &mut s.undo_redo, a, b).unwrap();
    let ba = connect_vertices(&mut s.graph, &mut s.undo_redo, b, a).unwrap();
    assert!(delete_edge(&mut s.graph, &mut s.undo_redo, ab));
    assert!(!s.graph.has_edge(ab));
    assert!(s.graph.has_edge(ba));
    assert_eq!(s.graph.edge_count(), 1);
    assert_eq!(s.graph.vertex_count(), 2);
}

#[test]
fn insert_vertex_on_edge_yields_exactly_two_edges() {
    // Splitting edge A->B at P gives exactly A->P and P->B, and no A->B.
    let mut s = EditorSession::new();
    let a = spawn_vertex(&mut s.graph, &mut s.undo_redo, pos(0, 0));
    let b = spawn_vertex(&mut s.graph, &mut s.undo_redo, pos(10, 0));
    let e = connect_vertices(&mut s.graph, &mut s.undo_redo, a, b).unwrap();
    let (p, e2) = insert_vertex_on_edge(&mut s.graph, &mut s.undo_redo, e, pos(5, 0)).unwrap();
    assert_eq!(s.graph.vertex_count(), 3);
    assert_eq!(s.graph.edge_count(), 2);
    assert_eq!(s.graph.vertex_position(p), Some(pos(5, 0)));
    let first = s.graph.edge_endpoints(e).unwrap();
    assert_eq!(first.from, a);
    assert_eq!(first.to, p);
    let second = s.graph.edge_endpoints(e2).unwrap();
    assert_eq!(second.from, p);
    assert_eq!(second.to, b);
    // The only two edges are A->P and P->B, so none runs A->B.
    assert_ne!(first.to, b);
    assert_ne!(second.from, a);
}

#[test]
fn insert_on_stale_edge_is_dropped() {
    let mut s = EditorSession::new();
    let a = spawn_vertex(&mut s.graph, &mut s.undo_redo, pos(0, 0));
    let b = spawn_vertex(&mut s.graph, &mut s.undo_redo, pos(10, 0));
    let e = connect_vertices(&mut s.graph, &mut s.undo_redo, a, b).unwrap();
    assert!(delete_edge(&mut s.graph, &mut s.undo_redo, e));
    let r = insert_vertex_on_edge(&mut s.graph, &mut s.undo_redo, e, pos(5, 0));
    assert!(r.is_none());
    assert_eq!(s.graph.vertex_count(), 2);
    assert_eq!(s.graph.edge_count(), 0);
}

#[test]
fn rename_sets_label() {
    let mut s = EditorSession::new();
    let v = spawn_vertex(&mut s.graph, &mut s.undo_redo, pos(0, 0));
    assert!(rename_vertex(&mut s.graph, &mut s.undo_redo, v, String::from("start"), true));
    assert_eq!(s.graph.vertex_label(v), Some(String::from("start")));
}

#[test]
fn move_sets_position() {
    let mut s = EditorSession::new();
    let v = spawn_vertex(&mut s.graph, &mut s.undo_redo, pos(0, 0));
    assert!(move_vertex(&mut s.graph, &mut s.undo_redo, v, pos(30, 40)));
    assert_eq!(s.graph.vertex_position(v), Some(pos(30, 40)));
}

#[test]
fn stale_move_and_rename_are_dropped() {
    let mut s = EditorSession::new();
    let v = spawn_vertex(&mut s.graph, &mut s.undo_redo, pos(0, 0));
    assert!(delete_vertex(&mut s.graph, &mut s.undo_redo, v));
    let undo_before = s.undo_redo.undo_len();
    assert!(!move_vertex(&mut s.graph, &mut s.undo_redo, v, pos(1, 1)));
    assert!(!rename_vertex(&mut s.graph, &mut s.undo_redo, v, String::from("x"), true));
    assert_eq!(s.undo_redo.undo_len(), undo_before);
    assert_eq!(s.graph.vertex_count(), 0);
}
