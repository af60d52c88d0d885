//! The undo/redo ledger: round trips, redo invalidation, bounded
//! history and its eviction side effect.

use graph_editor::components::Position;
use graph_editor::constants::UNDO_REDO_CAPACITY;
use graph_editor::mutator::{
    connect_vertices, delete_edge, delete_vertex, insert_vertex_on_edge, move_vertex,
    rename_vertex, spawn_vertex,
};
use graph_editor::session::EditorSession;

fn pos(x: i64, y: i64) -> Position {
    Position { x, y }
}

#[test]
fn undo_of_spawn_removes_the_vertex() {
    let mut s = EditorSession::new();
    let v = spawn_vertex(&mut s.graph, &mut s.undo_redo, pos(1, 2));
    s.undo_redo.undo(&mut s.graph);
    assert!(!s.graph.has_vertex(v));
    assert_eq!(s.graph.vertex_count(), 0);
    assert_eq!(s.undo_redo.undo_len(), 0);
    assert_eq!(s.undo_redo.redo_len(), 1);
}

#[test]
fn undo_of_move_restores_the_position() {
    let mut s = EditorSession::new();
    let v = spawn_vertex(&mut s.graph, &mut s.undo_redo, pos(1, 2));
    move_vertex(&mut s.graph, &mut s.undo_redo, v, pos(9, 9));
    s.undo_redo.undo(&mut s.graph);
    assert_eq!(s.graph.vertex_position(v), Some(pos(1, 2)));
}

#[test]
fn undo_of_rename_restores_the_label() {
    let mut s = EditorSession::new();
    let v = spawn_vertex(&mut s.graph, &mut s.undo_redo, pos(0, 0));
    rename_vertex(&mut s.graph, &mut s.undo_redo, v, String::from("one"), true);
    rename_vertex(&mut s.graph, &mut s.undo_redo, v, String::from("two"), true);
    s.undo_redo.undo(&mut s.graph);
    assert_eq!(s.graph.vertex_label(v), Some(String::from("one")));
    s.undo_redo.undo(&mut s.graph);
    assert_eq!(s.graph.vertex_label(v), Some(String::new()));
}

#[test]
fn undo_of_deletion_restores_vertex_under_same_handle() {
    let mut s = EditorSession::new();
    let v = spawn_vertex(&mut s.graph, &mut s.undo_redo, pos(4, 5));
    rename_vertex(&mut s.graph, &mut s.undo_redo, v, String::from("kept"), true);
    delete_vertex(&mut s.graph, &mut s.undo_redo, v);
    assert!(!s.graph.has_vertex(v));
    s.undo_redo.undo(&mut s.graph);
    assert!(s.graph.has_vertex(v));
    assert_eq!(s.graph.vertex_position(v), Some(pos(4, 5)));
    assert_eq!(s.graph.vertex_label(v), Some(String::from("kept")));
}

#[test]
fn undo_of_connect_removes_the_edge() {
    let mut s = EditorSession::new();
    let a = spawn_vertex(&mut s.graph, &mut s.undo_redo, pos(0, 0));
    let b = spawn_vertex(&mut s.graph, &mut s.undo_redo, pos(1, 1));
    let e = connect_vertices(&mut s.graph, &mut s.undo_redo, a, b).unwrap();
    s.undo_redo.undo(&mut s.graph);
    assert!(!s.graph.has_edge(e));
    assert_eq!(s.graph.vertex_count(), 2);
}

#[test]
fn undo_of_edge_deletion_restores_the_edge() {
    let mut s = EditorSession::new();
    let a = spawn_vertex(&mut s.graph, &mut s.undo_redo, pos(0, 0));
    let b = spawn_vertex(&mut s.graph, &mut s.undo_redo, pos(1, 1));
    let e = connect_vertices(&mut s.graph, &mut s.undo_redo, a, b).unwrap();
    delete_edge(&mut s.graph, &mut s.undo_redo, e);
    s.undo_redo.undo(&mut s.graph);
    let d = s.graph.edge_endpoints(e).unwrap();
    assert_eq!(d.from, a);
    assert_eq!(d.to, b);
}

#[test]
fn undo_of_insertion_restores_the_split_edge() {
    let mut s = EditorSession::new();
    let a = spawn_vertex(&mut s.graph, &mut s.undo_redo, pos(0, 0));
    let b = spawn_vertex(&mut s.graph, &mut s.undo_redo, pos(10, 0));
    let e = connect_vertices(&mut s.graph, &mut s.undo_redo, a, b).unwrap();
    let (p, e2) = insert_vertex_on_edge(&mut s.graph, &mut s.undo_redo, e, pos(5, 0)).unwrap();
    s.undo_redo.undo(&mut s.graph);
    assert!(!s.graph.has_vertex(p));
    assert!(!s.graph.has_edge(e2));
    let d = s.graph.edge_endpoints(e).unwrap();
    assert_eq!(d.from, a);
    assert_eq!(d.to, b);
    assert_eq!(s.graph.vertex_count(), 2);
    assert_eq!(s.graph.edge_count(), 1);
}

#[test]
fn four_mutations_then_four_undos_restore_everything() {
    // A run of manual mutations followed by as many undos leaves the
    // graph exactly as it was.
    let mut s = EditorSession::new();
    let a = spawn_vertex(&mut s.graph, &mut s.undo_redo, pos(0, 0));
    rename_vertex(&mut s.graph, &mut s.undo_redo, a, String::from("origin"), true);
    // The state to come back to: one vertex named "origin" at (0, 0).
    let b = spawn_vertex(&mut s.graph, &mut s.undo_redo, pos(7, 7));
    let e = connect_vertices(&mut s.graph, &mut s.undo_redo, a, b).unwrap();
    move_vertex(&mut s.graph, &mut s.undo_redo, a, pos(2, 2));
    rename_vertex(&mut s.graph, &mut s.undo_redo, a, String::from("moved"), true);
    for _ in 0..4 {
        s.undo_redo.undo(&mut s.graph);
    }
    assert_eq!(s.graph.vertex_count(), 1);
    assert_eq!(s.graph.edge_count(), 0);
    assert!(!s.graph.has_vertex(b));
    assert!(!s.graph.has_edge(e));
    assert_eq!(s.graph.vertex_position(a), Some(pos(0, 0)));
    assert_eq!(s.graph.vertex_label(a), Some(String::from("origin")));
}

#[test]
fn mutate_undo_redo_lands_on_the_mutated_state() {
    let mut s = EditorSession::new();
    let v = spawn_vertex(&mut s.graph, &mut s.undo_redo, pos(1, 1));
    move_vertex(&mut s.graph, &mut s.undo_redo, v, pos(8, 8));
    s.undo_redo.undo(&mut s.graph);
    assert_eq!(s.graph.vertex_position(v), Some(pos(1, 1)));
    s.undo_redo.redo(&mut s.graph);
    assert_eq!(s.graph.vertex_position(v), Some(pos(8, 8)));
}

#[test]
fn spawn_undo_redo_restores_same_handle() {
    let mut s = EditorSession::new();
    let v = spawn_vertex(&mut s.graph, &mut s.undo_redo, pos(3, 3));
    s.undo_redo.undo(&mut s.graph);
    assert!(!s.graph.has_vertex(v));
    s.undo_redo.redo(&mut s.graph);
    assert!(s.graph.has_vertex(v));
    assert_eq!(s.graph.vertex_position(v), Some(pos(3, 3)));
}

#[test]
fn manual_action_clears_redo_history() {
    // spawn -> undo -> move -> redo: the redo is a no-op, because the
    // manual move cleared the redo history.
    let mut s = EditorSession::new();
    let a = spawn_vertex(&mut s.graph, &mut s.undo_redo, pos(0, 0));
    let b = spawn_vertex(&mut s.graph, &mut s.undo_redo, pos(5, 5));
    s.undo_redo.undo(&mut s.graph);
    assert!(!s.graph.has_vertex(b));
    assert_eq!(s.undo_redo.redo_len(), 1);
    move_vertex(&mut s.graph, &mut s.undo_redo, a, pos(2, 2));
    assert_eq!(s.undo_redo.redo_len(), 0);
    s.undo_redo.redo(&mut s.graph);
    assert!(!s.graph.has_vertex(b));
    assert_eq!(s.graph.vertex_count(), 1);
    assert_eq!(s.undo_redo.redo_len(), 0);
}

#[test]
fn undo_on_empty_history_is_a_no_op() {
    let mut s = EditorSession::new();
    s.undo_redo.undo(&mut s.graph);
    assert_eq!(s.graph.vertex_count(), 0);
    assert_eq!(s.undo_redo.undo_len(), 0);
    assert_eq!(s.undo_redo.redo_len(), 0);
}

#[test]
fn redo_on_empty_history_is_a_no_op() {
    let mut s = EditorSession::new();
    let v = spawn_vertex(&mut s.graph, &mut s.undo_redo, pos(1, 1));
    s.undo_redo.redo(&mut s.graph);
    assert!(s.graph.has_vertex(v));
    assert_eq!(s.undo_redo.undo_len(), 1);
}

#[test]
fn undo_redo_toggling_is_stable() {
    let mut s = EditorSession::new();
    let v = spawn_vertex(&mut s.graph, &mut s.undo_redo, pos(0, 0));
    move_vertex(&mut s.graph, &mut s.undo_redo, v, pos(1, 0));
    move_vertex(&mut s.graph, &mut s.undo_redo, v, pos(2, 0));
    for _ in 0..3 {
        s.undo_redo.undo(&mut s.graph);
        s.undo_redo.undo(&mut s.graph);
        s.undo_redo.redo(&mut s.graph);
        s.undo_redo.redo(&mut s.graph);
    }
    assert_eq!(s.graph.vertex_position(v), Some(pos(2, 0)));
    assert_eq!(s.undo_redo.undo_len(), 3);
    assert_eq!(s.undo_redo.redo_len(), 0);
}

#[test]
fn connect_scenario_with_two_undos_and_two_redos() {
    // spawn (0,0), spawn (100,100), connect; undo removes the edge,
    // undo removes the second vertex; redo re-creates the vertex, redo
    // re-creates the edge: exactly 2 vertices and 1 edge as before.
    let mut s = EditorSession::new();
    let a = spawn_vertex(&mut s.graph, &mut s.undo_redo, pos(0, 0));
    let b = spawn_vertex(&mut s.graph, &mut s.undo_redo, pos(100, 100));
    let e = connect_vertices(&mut s.graph, &mut s.undo_redo, a, b).unwrap();
    s.undo_redo.undo(&mut s.graph);
    assert_eq!(s.graph.edge_count(), 0);
    assert_eq!(s.graph.vertex_count(), 2);
    s.undo_redo.undo(&mut s.graph);
    assert_eq!(s.graph.vertex_count(), 1);
    assert!(!s.graph.has_vertex(b));
    s.undo_redo.redo(&mut s.graph);
    assert_eq!(s.graph.vertex_count(), 2);
    assert_eq!(s.graph.vertex_position(b), Some(pos(100, 100)));
    s.undo_redo.redo(&mut s.graph);
    assert_eq!(s.graph.edge_count(), 1);
    let d = s.graph.edge_endpoints(e).unwrap();
    assert_eq!(d.from, a);
    assert_eq!(d.to, b);
}

#[test]
fn insertion_undo_redo_round_trip() {
    let mut s = EditorSession::new();
    let a = spawn_vertex(&mut s.graph, &mut s.undo_redo, pos(0, 0));
    let b = spawn_vertex(&mut s.graph, &mut s.undo_redo, pos(10, 0));
    let e = connect_vertices(&mut s.graph, &mut s.undo_redo, a, b).unwrap();
    let (p, e2) = insert_vertex_on_edge(&mut s.graph, &mut s.undo_redo, e, pos(5, 0)).unwrap();
    s.undo_redo.undo(&mut s.graph);
    s.undo_redo.redo(&mut s.graph);
    assert!(s.graph.has_vertex(p));
    assert_eq!(s.graph.vertex_position(p), Some(pos(5, 0)));
    let first = s.graph.edge_endpoints(e).unwrap();
    assert_eq!(first.from, a);
    assert_eq!(first.to, p);
    let second = s.graph.edge_endpoints(e2).unwrap();
    assert_eq!(second.from, p);
    assert_eq!(second.to, b);
}

#[test]
fn undo_history_is_bounded_and_eviction_despawns() {
    // Recording one entry past the capacity evicts the oldest; the
    // evicted entry undid a spawn, so the spawned vertex goes with it.
    let mut s = EditorSession::new();
    let mut handles = Vec::new();
    for i in 0..(UNDO_REDO_CAPACITY + 1) {
        let v = spawn_vertex(&mut s.graph, &mut s.undo_redo, pos(i as i64, 0));
        handles.push(v);
        assert!(s.undo_redo.undo_len() <= UNDO_REDO_CAPACITY);
    }
    assert_eq!(s.undo_redo.undo_len(), UNDO_REDO_CAPACITY);
    assert!(!s.graph.has_vertex(handles[0]));
    assert_eq!(s.graph.vertex_count(), UNDO_REDO_CAPACITY);
    for h in handles.iter().skip(1) {
        assert!(s.graph.has_vertex(*h));
    }
}

#[test]
fn stale_undo_entry_is_dropped_without_effect() {
    // Delete a vertex that still has an edge: the cascade removes the
    // edge, and the connect's undo entry goes stale.  Undoing past the
    // deletion pops that entry without effect.
    let mut s = EditorSession::new();
    let a = spawn_vertex(&mut s.graph, &mut s.undo_redo, pos(0, 0));
    let b = spawn_vertex(&mut s.graph, &mut s.undo_redo, pos(1, 1));
    connect_vertices(&mut s.graph, &mut s.undo_redo, a, b).unwrap();
    delete_vertex(&mut s.graph, &mut s.undo_redo, b);
    assert_eq!(s.graph.edge_count(), 0);
    // Undo the deletion: the vertex returns, its former edge does not.
    s.undo_redo.undo(&mut s.graph);
    assert!(s.graph.has_vertex(b));
    assert_eq!(s.graph.edge_count(), 0);
    // Undo the connect: the edge was already cascaded away, so this
    // entry is stale and dropped.
    let before = s.graph.edge_count();
    s.undo_redo.undo(&mut s.graph);
    assert_eq!(s.graph.edge_count(), before);
    assert_eq!(s.graph.vertex_count(), 2);
}
