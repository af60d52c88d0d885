//! The graph store: the set of vertices and directed edges with their
//! attributes, owned as plain data.
//!
//! The store is modelled by a pair of maps, from vertex handles to
//! position and label and from edge handles to endpoint pairs
//! ([`GraphView`]).  Every operation states its effect on that model.
//! The store holds no logic beyond storage and referential lookups;
//! recording of inverse actions is the mutator's business.

use vstd::prelude::*;

use crate::components::{ClickTracker, DirectedEdge, EdgeId, Position, Vertex, VertexId};

verus! {

/// One stored vertex: its handle, displayed data, position, and the click
/// bookkeeping that gesture interpretation keeps per vertex.
pub struct VertexRecord {
    pub id: VertexId,
    pub vertex: Vertex,
    pub position: Position,
    pub tracker: ClickTracker,
}

/// One stored edge: its handle and its endpoints.
#[derive(Clone, Copy)]
pub struct EdgeRecord {
    pub id: EdgeId,
    pub edge: DirectedEdge,
}

/// What a vertex is, mathematically: a position and a label.
#[verifier::ext_equal]
pub struct VertexView {
    pub position: Position,
    pub label: Seq<char>,
}

/// The mathematical content of the store: two maps keyed by handle.
#[verifier::ext_equal]
pub struct GraphView {
    pub vertices: Map<VertexId, VertexView>,
    pub edges: Map<EdgeId, DirectedEdge>,
}

/// Whether `v` is an endpoint of `e`.
pub open spec fn edge_incident(e: DirectedEdge, v: VertexId) -> bool {
    e.from == v || e.to == v
}

/// Every edge's endpoints exist.  The store maintains this at every step:
/// no edge with a dangling endpoint survives an operation.
pub open spec fn wf_view(g: GraphView) -> bool {
    forall|e: EdgeId| #[trigger] g.edges.dom().contains(e)
        ==> g.vertices.dom().contains(g.edges[e].from)
            && g.vertices.dom().contains(g.edges[e].to)
}

pub open spec fn vertex_view_of(r: VertexRecord) -> VertexView {
    VertexView { position: r.position, label: r.vertex.label@ }
}

pub open spec fn vertex_map(s: Seq<VertexRecord>) -> Map<VertexId, VertexView>
    decreases s.len(),
{
    if s.len() == 0 {
        Map::empty()
    } else {
        vertex_map(s.drop_last()).insert(s.last().id, vertex_view_of(s.last()))
    }
}

pub open spec fn edge_map(s: Seq<EdgeRecord>) -> Map<EdgeId, DirectedEdge>
    decreases s.len(),
{
    if s.len() == 0 {
        Map::empty()
    } else {
        edge_map(s.drop_last()).insert(s.last().id, s.last().edge)
    }
}

pub open spec fn seq_has_vertex(s: Seq<VertexRecord>, id: VertexId) -> bool {
    exists|i: int| 0 <= i < s.len() && s[i].id == id
}

pub open spec fn seq_has_edge(s: Seq<EdgeRecord>, id: EdgeId) -> bool {
    exists|i: int| 0 <= i < s.len() && s[i].id == id
}

pub open spec fn vertex_ids_unique(s: Seq<VertexRecord>) -> bool {
    forall|i: int, j: int| 0 <= i < j < s.len() ==> s[i].id != s[j].id
}

pub open spec fn edge_ids_unique(s: Seq<EdgeRecord>) -> bool {
    forall|i: int, j: int| 0 <= i < j < s.len() ==> s[i].id != s[j].id
}

/// Creating a vertex, on the model.
pub open spec fn spawn_effect(
    g: GraphView,
    v: VertexId,
    position: Position,
    label: Seq<char>,
) -> GraphView {
    GraphView { vertices: g.vertices.insert(v, VertexView { position, label }), edges: g.edges }
}

/// Deleting a vertex with its incident edges, on the model.
pub open spec fn delete_vertex_effect(g: GraphView, v: VertexId) -> GraphView {
    GraphView { vertices: g.vertices.remove(v), edges: cascade_edges(g.edges, v) }
}

/// Relabelling a vertex, on the model.
pub open spec fn rename_effect(g: GraphView, v: VertexId, label: Seq<char>) -> GraphView {
    GraphView {
        vertices: g.vertices.insert(
            v,
            VertexView { position: g.vertices[v].position, label },
        ),
        edges: g.edges,
    }
}

/// Moving a vertex, on the model.
pub open spec fn move_effect(g: GraphView, v: VertexId, position: Position) -> GraphView {
    GraphView {
        vertices: g.vertices.insert(v, VertexView { position, label: g.vertices[v].label }),
        edges: g.edges,
    }
}

/// Creating an edge, on the model.
pub open spec fn connect_effect(g: GraphView, e: EdgeId, from: VertexId, to: VertexId) -> GraphView {
    GraphView { vertices: g.vertices, edges: g.edges.insert(e, DirectedEdge { from, to }) }
}

/// Deleting an edge, on the model.
pub open spec fn delete_edge_effect(g: GraphView, e: EdgeId) -> GraphView {
    GraphView { vertices: g.vertices, edges: g.edges.remove(e) }
}

/// Splitting edge `e` by a new vertex `v`: `v` appears at `position`, `e`
/// now ends at `v`, and a second edge `e2` runs from `v` to `e`'s old
/// target.
pub open spec fn split_effect(
    g: GraphView,
    e: EdgeId,
    v: VertexId,
    e2: EdgeId,
    position: Position,
) -> GraphView {
    GraphView {
        vertices: g.vertices.insert(v, VertexView { position, label: Seq::empty() }),
        edges: g.edges.insert(e, DirectedEdge { from: g.edges[e].from, to: v }).insert(
            e2,
            DirectedEdge { from: v, to: g.edges[e].to },
        ),
    }
}

/// The graph store.  Handles are assigned from counters that never
/// decrease, so a handle is never reused for a different object.
pub struct Graph {
    vertices: Vec<VertexRecord>,
    edges: Vec<EdgeRecord>,
    next_vertex_id: u64,
    next_edge_id: u64,
}

impl View for Graph {
    type V = GraphView;

    closed spec fn view(&self) -> GraphView {
        GraphView {
            vertices: vertex_map(self.vertices@),
            edges: edge_map(self.edges@),
        }
    }
}

proof fn lemma_vertex_map_dom(s: Seq<VertexRecord>)
    ensures
        forall|id: VertexId| vertex_map(s).dom().contains(id) <==> seq_has_vertex(s, id),
    decreases s.len(),
{
    if s.len() > 0 {
        lemma_vertex_map_dom(s.drop_last());
        assert forall|id: VertexId| seq_has_vertex(s, id) implies vertex_map(s).dom().contains(
            id,
        ) by {
            let i = choose|i: int| 0 <= i < s.len() && s[i].id == id;
            if i < s.len() - 1 {
                assert(s.drop_last()[i] == s[i]);
                assert(seq_has_vertex(s.drop_last(), id));
            }
        }
        assert forall|id: VertexId| vertex_map(s).dom().contains(id) implies seq_has_vertex(
            s,
            id,
        ) by {
            if id != s.last().id {
                assert(vertex_map(s.drop_last()).dom().contains(id));
                assert(seq_has_vertex(s.drop_last(), id));
                let i = choose|i: int| 0 <= i < s.drop_last().len() && s.drop_last()[i].id == id;
                assert(s.drop_last()[i] == s[i]);
                assert(s[i].id == id);
            } else {
                assert(s[s.len() - 1].id == id);
            }
        }
    }
}

proof fn lemma_edge_map_dom(s: Seq<EdgeRecord>)
    ensures
        forall|id: EdgeId| edge_map(s).dom().contains(id) <==> seq_has_edge(s, id),
    decreases s.len(),
{
    if s.len() > 0 {
        lemma_edge_map_dom(s.drop_last());
        assert forall|id: EdgeId| seq_has_edge(s, id) implies edge_map(s).dom().contains(id) by {
            let i = choose|i: int| 0 <= i < s.len() && s[i].id == id;
            if i < s.len() - 1 {
                assert(s.drop_last()[i] == s[i]);
                assert(seq_has_edge(s.drop_last(), id));
            }
        }
        assert forall|id: EdgeId| edge_map(s).dom().contains(id) implies seq_has_edge(s, id) by {
            if id != s.last().id {
                assert(edge_map(s.drop_last()).dom().contains(id));
                assert(seq_has_edge(s.drop_last(), id));
                let i = choose|i: int| 0 <= i < s.drop_last().len() && s.drop_last()[i].id == id;
                assert(s.drop_last()[i] == s[i]);
                assert(s[i].id == id);
            } else {
                assert(s[s.len() - 1].id == id);
            }
        }
    }
}

/// With unique handles, the map agrees with the record at each index.
proof fn lemma_vertex_map_index(s: Seq<VertexRecord>, i: int)
    requires
        vertex_ids_unique(s),
        0 <= i < s.len(),
    ensures
        vertex_map(s).dom().contains(s[i].id),
        vertex_map(s)[s[i].id] == vertex_view_of(s[i]),
    decreases s.len(),
{
    if i == s.len() - 1 {
    } else {
        lemma_vertex_map_index(s.drop_last(), i);
        assert(s.drop_last()[i] == s[i]);
        assert(s[i].id != s.last().id);
    }
}

proof fn lemma_edge_map_index(s: Seq<EdgeRecord>, i: int)
    requires
        edge_ids_unique(s),
        0 <= i < s.len(),
    ensures
        edge_map(s).dom().contains(s[i].id),
        edge_map(s)[s[i].id] == s[i].edge,
    decreases s.len(),
{
    if i == s.len() - 1 {
    } else {
        lemma_edge_map_index(s.drop_last(), i);
        assert(s.drop_last()[i] == s[i]);
        assert(s[i].id != s.last().id);
    }
}

/// The edges that survive deleting vertex `v`: those not incident to it.
pub open spec fn cascade_edges(edges: Map<EdgeId, DirectedEdge>, v: VertexId) -> Map<
    EdgeId,
    DirectedEdge,
> {
    Map::new(
        |e: EdgeId| edges.dom().contains(e) && !edge_incident(edges[e], v),
        |e: EdgeId| edges[e],
    )
}

/// The stored edges that survive deleting vertex `v`.
pub open spec fn filter_incident(s: Seq<EdgeRecord>, v: VertexId) -> Seq<EdgeRecord>
    decreases s.len(),
{
    if s.len() == 0 {
        Seq::empty()
    } else {
        let rest = filter_incident(s.drop_last(), v);
        if edge_incident(s.last().edge, v) {
            rest
        } else {
            rest.push(s.last())
        }
    }
}

/// Every record kept by the filter stands somewhere in the source, and
/// none of them is incident to the deleted vertex.
proof fn lemma_filter_incident_membership(s: Seq<EdgeRecord>, v: VertexId)
    ensures
        forall|i: int|
            0 <= i < filter_incident(s, v).len() ==> exists|j: int|
                0 <= j < s.len() && s[j] == #[trigger] filter_incident(s, v)[i],
        forall|i: int|
            0 <= i < filter_incident(s, v).len() ==> !edge_incident(
                (#[trigger] filter_incident(s, v)[i]).edge,
                v,
            ),
    decreases s.len(),
{
    if s.len() > 0 {
        lemma_filter_incident_membership(s.drop_last(), v);
        let f = filter_incident(s, v);
        let fr = filter_incident(s.drop_last(), v);
        assert forall|i: int| 0 <= i < f.len() implies exists|j: int|
            0 <= j < s.len() && s[j] == #[trigger] f[i] by {
            if i < fr.len() {
                let j = choose|j: int| 0 <= j < s.drop_last().len() && s.drop_last()[j] == fr[i];
                assert(s[j] == f[i]);
            } else {
                assert(s[s.len() - 1] == f[i]);
            }
        }
    }
}

proof fn lemma_filter_incident_unique(s: Seq<EdgeRecord>, v: VertexId)
    requires
        edge_ids_unique(s),
    ensures
        edge_ids_unique(filter_incident(s, v)),
        forall|id: EdgeId| seq_has_edge(filter_incident(s, v), id) ==> seq_has_edge(s, id),
    decreases s.len(),
{
    if s.len() > 0 {
        lemma_filter_incident_unique(s.drop_last(), v);
        let f = filter_incident(s, v);
        let fr = filter_incident(s.drop_last(), v);
        lemma_filter_incident_membership(s.drop_last(), v);
        assert forall|id: EdgeId| seq_has_edge(f, id) implies seq_has_edge(s, id) by {
            let i = choose|i: int| 0 <= i < f.len() && f[i].id == id;
            if i < fr.len() {
                assert(seq_has_edge(fr, id));
                let j = choose|j: int| 0 <= j < s.drop_last().len() && s.drop_last()[j].id == id;
                assert(s[j].id == id);
            } else {
                assert(s[s.len() - 1].id == id);
            }
        }
        if !edge_incident(s.last().edge, v) {
            // The appended last record's id occurs nowhere in the kept prefix.
            assert forall|i: int, j: int| 0 <= i < j < f.len() implies f[i].id != f[j].id by {
                if j == f.len() - 1 {
                    assert(f[j] == s.last());
                    let k = choose|k: int|
                        0 <= k < s.drop_last().len() && s.drop_last()[k] == fr[i];
                    assert(s[k] == fr[i]);
                    assert(f[i] == fr[i]);
                } else {
                    assert(fr[i] == f[i] && fr[j] == f[j]);
                }
            }
        }
    }
}

/// Filtering the records is, on the model, restricting the map.
proof fn lemma_edge_map_filter(s: Seq<EdgeRecord>, v: VertexId)
    requires
        edge_ids_unique(s),
    ensures
        edge_map(filter_incident(s, v)) =~= cascade_edges(edge_map(s), v),
    decreases s.len(),
{
    lemma_edge_map_dom(s);
    if s.len() == 0 {
    } else {
        lemma_edge_map_filter(s.drop_last(), v);
        lemma_edge_map_dom(s.drop_last());
        let last = s.last();
        assert(!seq_has_edge(s.drop_last(), last.id));
        if edge_incident(last.edge, v) {
            assert(edge_map(filter_incident(s, v)) =~= cascade_edges(edge_map(s), v));
        } else {
            assert(filter_incident(s, v) == filter_incident(s.drop_last(), v).push(last));
            assert(filter_incident(s, v).drop_last() =~= filter_incident(s.drop_last(), v));
            assert(edge_map(filter_incident(s, v)) == edge_map(
                filter_incident(s.drop_last(), v),
            ).insert(last.id, last.edge));
            assert(edge_map(filter_incident(s, v)) =~= cascade_edges(edge_map(s), v));
        }
    }
}

/// Two indices holding the same vertex handle coincide.
proof fn lemma_vertex_index_unique(s: Seq<VertexRecord>, i: int, j: int)
    requires
        vertex_ids_unique(s),
        0 <= i < s.len(),
        0 <= j < s.len(),
        s[i].id == s[j].id,
    ensures
        i == j,
{
}

/// Updating one record updates the model at its handle.
proof fn lemma_vertex_map_update(s: Seq<VertexRecord>, i: int, r: VertexRecord)
    requires
        vertex_ids_unique(s),
        0 <= i < s.len(),
        r.id == s[i].id,
    ensures
        vertex_map(s.update(i, r)) =~= vertex_map(s).insert(r.id, vertex_view_of(r)),
    decreases s.len(),
{
    lemma_vertex_map_dom(s);
    if i == s.len() - 1 {
        assert(s.update(i, r).drop_last() =~= s.drop_last());
        assert(s.update(i, r).last() == r);
    } else {
        lemma_vertex_map_update(s.drop_last(), i, r);
        assert(s.update(i, r).drop_last() =~= s.drop_last().update(i, r));
        assert(s.update(i, r).last() == s.last());
        assert(s.last().id != r.id);
        assert(vertex_map(s.update(i, r)) =~= vertex_map(s).insert(r.id, vertex_view_of(r)));
    }
}

/// Removing one record removes its handle from the model.
proof fn lemma_vertex_map_remove(s: Seq<VertexRecord>, i: int)
    requires
        vertex_ids_unique(s),
        0 <= i < s.len(),
    ensures
        vertex_map(s.remove(i)) =~= vertex_map(s).remove(s[i].id),
    decreases s.len(),
{
    lemma_vertex_map_dom(s);
    lemma_vertex_map_dom(s.drop_last());
    if i == s.len() - 1 {
        assert(s.remove(i) =~= s.drop_last());
        assert(!seq_has_vertex(s.drop_last(), s[i].id));
        assert(vertex_map(s.remove(i)) =~= vertex_map(s).remove(s[i].id));
    } else {
        lemma_vertex_map_remove(s.drop_last(), i);
        assert(s.remove(i).drop_last() =~= s.drop_last().remove(i));
        assert(s.remove(i).last() == s.last());
        assert(s.last().id != s[i].id);
        assert(s.drop_last()[i] == s[i]);
        assert(vertex_map(s.remove(i)) =~= vertex_map(s).remove(s[i].id));
    }
}

proof fn lemma_edge_map_update(s: Seq<EdgeRecord>, i: int, r: EdgeRecord)
    requires
        edge_ids_unique(s),
        0 <= i < s.len(),
        r.id == s[i].id,
    ensures
        edge_map(s.update(i, r)) =~= edge_map(s).insert(r.id, r.edge),
    decreases s.len(),
{
    lemma_edge_map_dom(s);
    if i == s.len() - 1 {
        assert(s.update(i, r).drop_last() =~= s.drop_last());
        assert(s.update(i, r).last() == r);
    } else {
        lemma_edge_map_update(s.drop_last(), i, r);
        assert(s.update(i, r).drop_last() =~= s.drop_last().update(i, r));
        assert(s.update(i, r).last() == s.last());
        assert(s.last().id != r.id);
        assert(edge_map(s.update(i, r)) =~= edge_map(s).insert(r.id, r.edge));
    }
}

proof fn lemma_edge_map_remove(s: Seq<EdgeRecord>, i: int)
    requires
        edge_ids_unique(s),
        0 <= i < s.len(),
    ensures
        edge_map(s.remove(i)) =~= edge_map(s).remove(s[i].id),
    decreases s.len(),
{
    lemma_edge_map_dom(s);
    lemma_edge_map_dom(s.drop_last());
    if i == s.len() - 1 {
        assert(s.remove(i) =~= s.drop_last());
        assert(!seq_has_edge(s.drop_last(), s[i].id));
        assert(edge_map(s.remove(i)) =~= edge_map(s).remove(s[i].id));
    } else {
        lemma_edge_map_remove(s.drop_last(), i);
        assert(s.remove(i).drop_last() =~= s.drop_last().remove(i));
        assert(s.remove(i).last() == s.last());
        assert(s.last().id != s[i].id);
        assert(s.drop_last()[i] == s[i]);
        assert(edge_map(s.remove(i)) =~= edge_map(s).remove(s[i].id));
    }
}

/// With unique handles, the model has exactly one entry per record.
proof fn lemma_vertex_map_len(s: Seq<VertexRecord>)
    requires
        vertex_ids_unique(s),
    ensures
        vertex_map(s).dom().finite(),
        vertex_map(s).dom().len() == s.len(),
    decreases s.len(),
{
    if s.len() > 0 {
        lemma_vertex_map_len(s.drop_last());
        lemma_vertex_map_dom(s.drop_last());
        assert(!seq_has_vertex(s.drop_last(), s.last().id));
        vstd::set::axiom_set_insert_len(vertex_map(s.drop_last()).dom(), s.last().id);
    }
}

proof fn lemma_edge_map_len(s: Seq<EdgeRecord>)
    requires
        edge_ids_unique(s),
    ensures
        edge_map(s).dom().finite(),
        edge_map(s).dom().len() == s.len(),
    decreases s.len(),
{
    if s.len() > 0 {
        lemma_edge_map_len(s.drop_last());
        lemma_edge_map_dom(s.drop_last());
        assert(!seq_has_edge(s.drop_last(), s.last().id));
        vstd::set::axiom_set_insert_len(edge_map(s.drop_last()).dom(), s.last().id);
    }
}

proof fn lemma_vertex_ids_unique_remove(s: Seq<VertexRecord>, i: int)
    requires
        vertex_ids_unique(s),
        0 <= i < s.len(),
    ensures
        vertex_ids_unique(s.remove(i)),
{
    assert forall|a: int, b: int| 0 <= a < b < s.remove(i).len() implies s.remove(i)[a].id
        != s.remove(i)[b].id by {
        let a0: int = if a < i { a } else { a + 1 };
        let b0: int = if b < i { b } else { b + 1 };
        assert(s.remove(i)[a] == s[a0]);
        assert(s.remove(i)[b] == s[b0]);
    }
}

proof fn lemma_edge_ids_unique_remove(s: Seq<EdgeRecord>, i: int)
    requires
        edge_ids_unique(s),
        0 <= i < s.len(),
    ensures
        edge_ids_unique(s.remove(i)),
{
    assert forall|a: int, b: int| 0 <= a < b < s.remove(i).len() implies s.remove(i)[a].id
        != s.remove(i)[b].id by {
        let a0: int = if a < i { a } else { a + 1 };
        let b0: int = if b < i { b } else { b + 1 };
        assert(s.remove(i)[a] == s[a0]);
        assert(s.remove(i)[b] == s[b0]);
    }
}

/// Replacing one stored vertex by another under the same handle keeps
/// the store well formed and updates the model at that handle alone.
proof fn lemma_vertex_record_updated(pre: Graph, post: Graph, i: int)
    requires
        pre.wf(),
        0 <= i < pre.vertices@.len(),
        post.vertices@ == pre.vertices@.update(i, post.vertices@[i]),
        post.vertices@[i].id == pre.vertices@[i].id,
        post.edges@ == pre.edges@,
        post.next_vertex_id == pre.next_vertex_id,
        post.next_edge_id == pre.next_edge_id,
    ensures
        post.wf(),
        post@.vertices == pre@.vertices.insert(
            pre.vertices@[i].id,
            vertex_view_of(post.vertices@[i]),
        ),
        post@.edges == pre@.edges,
{
    let s0 = pre.vertices@;
    let s1 = post.vertices@;
    lemma_vertex_map_update(s0, i, s1[i]);
    assert forall|k: int| 0 <= k < s1.len() implies (#[trigger] s1[k]).id == s0[k].id by {}
    assert forall|a: int, b: int| 0 <= a < b < s1.len() implies s1[a].id != s1[b].id by {
        assert(s0[a].id != s0[b].id);
    }
    assert forall|k: int|
        0 <= k < post.edges@.len() implies seq_has_vertex(
        s1,
        (#[trigger] post.edges@[k]).edge.from,
    ) && seq_has_vertex(s1, post.edges@[k].edge.to) by {
        let f = post.edges@[k].edge.from;
        let t = post.edges@[k].edge.to;
        let a = choose|a: int| 0 <= a < s0.len() && s0[a].id == f;
        assert(s1[a].id == f);
        let b = choose|b: int| 0 <= b < s0.len() && s0[b].id == t;
        assert(s1[b].id == t);
    }
    assert(post.wf());
}

/// Appending a vertex record under a handle not yet stored keeps the
/// store well formed and inserts it into the model.
proof fn lemma_vertex_record_pushed(pre: Graph, post: Graph)
    requires
        pre.wf(),
        post.vertices@ == pre.vertices@.push(post.vertices@.last()),
        !seq_has_vertex(pre.vertices@, post.vertices@.last().id),
        post.vertices@.last().id.0 < post.next_vertex_id,
        pre.next_vertex_id <= post.next_vertex_id,
        post.edges@ == pre.edges@,
        post.next_edge_id == pre.next_edge_id,
    ensures
        post.wf(),
        post@.vertices == pre@.vertices.insert(
            post.vertices@.last().id,
            vertex_view_of(post.vertices@.last()),
        ),
        post@.edges == pre@.edges,
{
    let s0 = pre.vertices@;
    let s1 = post.vertices@;
    assert forall|a: int, b: int| 0 <= a < b < s1.len() implies s1[a].id != s1[b].id by {
        if b < s1.len() - 1 {
            assert(s0[a].id != s0[b].id);
        } else {
            assert(s1[a] == s0[a]);
        }
    }
    assert forall|k: int|
        0 <= k < post.edges@.len() implies seq_has_vertex(
        s1,
        (#[trigger] post.edges@[k]).edge.from,
    ) && seq_has_vertex(s1, post.edges@[k].edge.to) by {
        let f = post.edges@[k].edge.from;
        let t = post.edges@[k].edge.to;
        let a = choose|a: int| 0 <= a < s0.len() && s0[a].id == f;
        assert(s1[a].id == f);
        let b = choose|b: int| 0 <= b < s0.len() && s0[b].id == t;
        assert(s1[b].id == t);
    }
    assert(post.wf());
    assert(s1.drop_last() =~= s0);
}

/// Appending an edge record under a handle not yet stored, between
/// stored vertices, keeps the store well formed and inserts it into the
/// model.
proof fn lemma_edge_record_pushed(pre: Graph, post: Graph)
    requires
        pre.wf(),
        post.edges@ == pre.edges@.push(post.edges@.last()),
        !seq_has_edge(pre.edges@, post.edges@.last().id),
        post.edges@.last().id.0 < post.next_edge_id,
        pre.next_edge_id <= post.next_edge_id,
        seq_has_vertex(pre.vertices@, post.edges@.last().edge.from),
        seq_has_vertex(pre.vertices@, post.edges@.last().edge.to),
        post.vertices@ == pre.vertices@,
        post.next_vertex_id == pre.next_vertex_id,
    ensures
        post.wf(),
        post@.edges == pre@.edges.insert(post.edges@.last().id, post.edges@.last().edge),
        post@.vertices == pre@.vertices,
{
    let s0 = pre.edges@;
    let s1 = post.edges@;
    assert forall|a: int, b: int| 0 <= a < b < s1.len() implies s1[a].id != s1[b].id by {
        if b < s1.len() - 1 {
            assert(s0[a].id != s0[b].id);
        } else {
            assert(s1[a] == s0[a]);
        }
    }
    assert(post.wf());
    assert(s1.drop_last() =~= s0);
}

/// A handle survives removal of a different record.
proof fn lemma_seq_has_vertex_remove(s: Seq<VertexRecord>, i: int, w: VertexId)
    requires
        0 <= i < s.len(),
        seq_has_vertex(s, w),
        s[i].id != w,
    ensures
        seq_has_vertex(s.remove(i), w),
{
    let j = choose|j: int| 0 <= j < s.len() && s[j].id == w;
    if j < i {
        assert(s.remove(i)[j] == s[j]);
    } else {
        assert(s.remove(i)[j - 1] == s[j]);
    }
}

impl Graph {
    /// Uniqueness of handles, counter bounds, and no dangling endpoints.
    pub closed spec fn wf(self) -> bool {
        &&& vertex_ids_unique(self.vertices@)
        &&& edge_ids_unique(self.edges@)
        &&& forall|i: int|
            0 <= i < self.vertices@.len() ==> (#[trigger] self.vertices@[i].id).0
                < self.next_vertex_id
        &&& forall|i: int|
            0 <= i < self.edges@.len() ==> (#[trigger] self.edges@[i].id).0 < self.next_edge_id
        &&& forall|i: int|
            0 <= i < self.edges@.len() ==> seq_has_vertex(
                self.vertices@,
                (#[trigger] self.edges@[i]).edge.from,
            ) && seq_has_vertex(self.vertices@, self.edges@[i].edge.to)
    }

    /// A well-formed store has a well-formed model.
    pub proof fn lemma_wf_view(self)
        requires
            self.wf(),
        ensures
            wf_view(self@),
    {
        lemma_vertex_map_dom(self.vertices@);
        lemma_edge_map_dom(self.edges@);
        assert forall|e: EdgeId| #[trigger] self@.edges.dom().contains(e)
            implies self@.vertices.dom().contains(self@.edges[e].from)
            && self@.vertices.dom().contains(self@.edges[e].to) by {
            assert(seq_has_edge(self.edges@, e));
            let i = choose|i: int| 0 <= i < self.edges@.len() && self.edges@[i].id == e;
            lemma_edge_map_index(self.edges@, i);
            assert(seq_has_vertex(self.vertices@, self.edges@[i].edge.from));
            assert(seq_has_vertex(self.vertices@, self.edges@[i].edge.to));
        }
    }

    /// The empty store, with the full range of handles still free.
    pub fn new() -> (g: Graph)
        ensures
            g.wf(),
            g@.vertices == Map::<VertexId, VertexView>::empty(),
            g@.edges == Map::<EdgeId, DirectedEdge>::empty(),
            g.vertex_alloc_margin() == u64::MAX as int,
            g.edge_alloc_margin() == u64::MAX as int,
    {
        Graph { vertices: Vec::new(), edges: Vec::new(), next_vertex_id: 0, next_edge_id: 0 }
    }

    fn find_vertex_index(&self, v: VertexId) -> (r: Option<usize>)
        ensures
            match r {
                Some(i) => i < self.vertices@.len() && self.vertices@[i as int].id == v,
                None => !seq_has_vertex(self.vertices@, v),
            },
    {
        let n = self.vertices.len();
        for i in 0..n
            invariant
                n == self.vertices@.len(),
                forall|j: int| 0 <= j < i ==> self.vertices@[j].id != v,
        {
            if self.vertices[i].id.0 == v.0 {
                return Some(i);
            }
        }
        None
    }

    fn find_edge_index(&self, e: EdgeId) -> (r: Option<usize>)
        ensures
            match r {
                Some(i) => i < self.edges@.len() && self.edges@[i as int].id == e,
                None => !seq_has_edge(self.edges@, e),
            },
    {
        let n = self.edges.len();
        for i in 0..n
            invariant
                n == self.edges@.len(),
                forall|j: int| 0 <= j < i ==> self.edges@[j].id != e,
        {
            if self.edges[i].id.0 == e.0 {
                return Some(i);
            }
        }
        None
    }

    /// Whether the store currently holds a vertex under this handle.
    pub fn has_vertex(&self, v: VertexId) -> (r: bool)
        requires
            self.wf(),
        ensures
            r == self@.vertices.dom().contains(v),
    {
        proof {
            lemma_vertex_map_dom(self.vertices@);
        }
        match self.find_vertex_index(v) {
            Some(i) => {
                proof {
                    assert(self.vertices@[i as int].id == v);
                    assert(seq_has_vertex(self.vertices@, v));
                }
                true
            },
            None => false,
        }
    }

    /// How many vertex handles can still be assigned.
    pub closed spec fn vertex_alloc_margin(self) -> int {
        u64::MAX - self.next_vertex_id
    }

    /// How many edge handles can still be assigned.
    pub closed spec fn edge_alloc_margin(self) -> int {
        u64::MAX - self.next_edge_id
    }

    /// Whether another vertex handle can still be assigned.
    pub open spec fn can_alloc_vertex(self) -> bool {
        self.vertex_alloc_margin() > 0
    }

    /// Whether another edge handle can still be assigned.
    pub open spec fn can_alloc_edge(self) -> bool {
        self.edge_alloc_margin() > 0
    }

    /// Run-time check that at least `n` more vertices can be created.
    pub fn vertex_capacity_at_least(&self, n: u64) -> (r: bool)
        ensures
            r == (self.vertex_alloc_margin() >= n),
    {
        u64::MAX - self.next_vertex_id >= n
    }

    /// Run-time check that at least `n` more edges can be created.
    pub fn edge_capacity_at_least(&self, n: u64) -> (r: bool)
        ensures
            r == (self.edge_alloc_margin() >= n),
    {
        u64::MAX - self.next_edge_id >= n
    }

    /// The index at which a present vertex is stored.
    pub closed spec fn vertex_index_of(self, v: VertexId) -> int {
        choose|i: int| 0 <= i < self.vertices@.len() && self.vertices@[i].id == v
    }

    /// The click bookkeeping of a present vertex.
    pub closed spec fn tracker_of(self, v: VertexId) -> ClickTracker {
        self.vertices@[self.vertex_index_of(v)].tracker
    }

    /// Whether the store currently holds an edge under this handle.
    pub fn has_edge(&self, e: EdgeId) -> (r: bool)
        requires
            self.wf(),
        ensures
            r == self@.edges.dom().contains(e),
    {
        proof {
            lemma_edge_map_dom(self.edges@);
        }
        match self.find_edge_index(e) {
            Some(i) => {
                proof {
                    assert(self.edges@[i as int].id == e);
                    assert(seq_has_edge(self.edges@, e));
                }
                true
            },
            None => false,
        }
    }

    /// Facts tying a stored record to the model and the tracker spec.
    proof fn lemma_vertex_at(self, i: int)
        requires
            self.wf(),
            0 <= i < self.vertices@.len(),
        ensures
            self@.vertices.dom().contains(self.vertices@[i].id),
            self@.vertices[self.vertices@[i].id] == vertex_view_of(self.vertices@[i]),
            self.vertex_index_of(self.vertices@[i].id) == i,
            self.tracker_of(self.vertices@[i].id) == self.vertices@[i].tracker,
    {
        lemma_vertex_map_index(self.vertices@, i);
        let id = self.vertices@[i].id;
        let j = self.vertex_index_of(id);
        assert(0 <= j < self.vertices@.len() && self.vertices@[j].id == id);
        lemma_vertex_index_unique(self.vertices@, i, j);
    }

    proof fn lemma_edge_at(self, i: int)
        requires
            self.wf(),
            0 <= i < self.edges@.len(),
        ensures
            self@.edges.dom().contains(self.edges@[i].id),
            self@.edges[self.edges@[i].id] == self.edges@[i].edge,
    {
        lemma_edge_map_index(self.edges@, i);
    }

    /// Everything in the model's vertex domain lies below the counter.
    proof fn lemma_vertex_dom_bound(self)
        requires
            self.wf(),
        ensures
            forall|v: VertexId|
                #[trigger] self@.vertices.dom().contains(v) ==> v.0 < self.next_vertex_id,
    {
        lemma_vertex_map_dom(self.vertices@);
        assert forall|v: VertexId| #[trigger] self@.vertices.dom().contains(v) implies v.0
            < self.next_vertex_id by {
            assert(seq_has_vertex(self.vertices@, v));
            let i = choose|i: int|
                0 <= i < self.vertices@.len() && self.vertices@[i].id == v;
            assert(self.vertices@[i].id.0 < self.next_vertex_id);
        }
    }

    proof fn lemma_edge_dom_bound(self)
        requires
            self.wf(),
        ensures
            forall|e: EdgeId| #[trigger] self@.edges.dom().contains(e) ==> e.0 < self.next_edge_id,
    {
        lemma_edge_map_dom(self.edges@);
        assert forall|e: EdgeId| #[trigger] self@.edges.dom().contains(e) implies e.0
            < self.next_edge_id by {
            assert(seq_has_edge(self.edges@, e));
            let i = choose|i: int| 0 <= i < self.edges@.len() && self.edges@[i].id == e;
            assert(self.edges@[i].id.0 < self.next_edge_id);
        }
    }

    /// The position of a present vertex.
    pub fn vertex_position(&self, v: VertexId) -> (r: Option<Position>)
        requires
            self.wf(),
        ensures
            match r {
                Some(p) => self@.vertices.dom().contains(v) && p == self@.vertices[v].position,
                None => !self@.vertices.dom().contains(v),
            },
    {
        proof {
            lemma_vertex_map_dom(self.vertices@);
        }
        match self.find_vertex_index(v) {
            Some(i) => {
                proof {
                    self.lemma_vertex_at(i as int);
                }
                Some(self.vertices[i].position)
            },
            None => None,
        }
    }

    /// The label of a present vertex.
    pub fn vertex_label(&self, v: VertexId) -> (r: Option<String>)
        requires
            self.wf(),
        ensures
            match r {
                Some(l) => self@.vertices.dom().contains(v) && l@ == self@.vertices[v].label,
                None => !self@.vertices.dom().contains(v),
            },
    {
        proof {
            lemma_vertex_map_dom(self.vertices@);
        }
        match self.find_vertex_index(v) {
            Some(i) => {
                proof {
                    self.lemma_vertex_at(i as int);
                }
                Some(self.vertices[i].vertex.label.clone())
            },
            None => None,
        }
    }

    /// The endpoints of a present edge.
    pub fn edge_endpoints(&self, e: EdgeId) -> (r: Option<DirectedEdge>)
        requires
            self.wf(),
        ensures
            match r {
                Some(d) => self@.edges.dom().contains(e) && d == self@.edges[e],
                None => !self@.edges.dom().contains(e),
            },
    {
        proof {
            lemma_edge_map_dom(self.edges@);
        }
        match self.find_edge_index(e) {
            Some(i) => {
                proof {
                    self.lemma_edge_at(i as int);
                }
                Some(self.edges[i].edge)
            },
            None => None,
        }
    }

    /// The click bookkeeping of a present vertex.
    pub fn get_tracker(&self, v: VertexId) -> (r: Option<ClickTracker>)
        requires
            self.wf(),
        ensures
            match r {
                Some(t) => self@.vertices.dom().contains(v) && t == self.tracker_of(v),
                None => !self@.vertices.dom().contains(v),
            },
    {
        proof {
            lemma_vertex_map_dom(self.vertices@);
        }
        match self.find_vertex_index(v) {
            Some(i) => {
                proof {
                    self.lemma_vertex_at(i as int);
                }
                Some(self.vertices[i].tracker)
            },
            None => None,
        }
    }

    /// How many vertices the store holds.
    pub fn vertex_count(&self) -> (r: usize)
        requires
            self.wf(),
        ensures
            r == self@.vertices.dom().len(),
            self@.vertices.dom().finite(),
    {
        proof {
            lemma_vertex_map_len(self.vertices@);
        }
        self.vertices.len()
    }

    /// How many edges the store holds.
    pub fn edge_count(&self) -> (r: usize)
        requires
            self.wf(),
        ensures
            r == self@.edges.dom().len(),
            self@.edges.dom().finite(),
    {
        proof {
            lemma_edge_map_len(self.edges@);
        }
        self.edges.len()
    }

    /// Create a vertex under a fresh handle.
    pub(crate) fn insert_fresh_vertex(&mut self, position: Position, label: String) -> (v:
        VertexId)
        requires
            old(self).wf(),
            old(self).can_alloc_vertex(),
        ensures
            final(self).wf(),
            !old(self)@.vertices.dom().contains(v),
            v.0 < u64::MAX,
            final(self)@.vertices == old(self)@.vertices.insert(
                v,
                VertexView { position, label: label@ },
            ),
            final(self)@.edges == old(self)@.edges,
            final(self).tracker_of(v) == ClickTracker::initial(),
            final(self).vertex_alloc_margin() == old(self).vertex_alloc_margin() - 1,
            final(self).edge_alloc_margin() == old(self).edge_alloc_margin(),
    {
        proof {
            self.lemma_vertex_dom_bound();
        }
        let v = VertexId(self.next_vertex_id);
        self.next_vertex_id = self.next_vertex_id + 1;
        let r = VertexRecord {
            id: v,
            vertex: Vertex { label },
            position,
            tracker: ClickTracker { last_click_time: None, click_count: 0 },
        };
        self.vertices.push(r);
        proof {
            let s0 = old(self).vertices@;
            let s1 = self.vertices@;
            assert(s1 == s0.push(s1.last()));
            assert forall|k: int| 0 <= k < s0.len() implies (#[trigger] s0[k]).id != v by {
                assert(s0[k].id.0 < old(self).next_vertex_id);
            }
            lemma_vertex_record_pushed(*old(self), *self);
            assert(self@.vertices == old(self)@.vertices.insert(
                v,
                VertexView { position, label: r.vertex.label@ },
            ));
            self.lemma_vertex_at(s1.len() - 1);
        }
        v
    }

    /// Re-create a vertex under a given handle, as the undo of a deletion
    /// does.  The handle must be free.
    pub(crate) fn insert_vertex_with_id(&mut self, v: VertexId, position: Position, label: String)
        requires
            old(self).wf(),
            !old(self)@.vertices.dom().contains(v),
            v.0 < u64::MAX,
        ensures
            final(self).wf(),
            final(self)@.vertices == old(self)@.vertices.insert(
                v,
                VertexView { position, label: label@ },
            ),
            final(self)@.edges == old(self)@.edges,
            final(self).tracker_of(v) == ClickTracker::initial(),
            final(self).vertex_alloc_margin() <= old(self).vertex_alloc_margin(),
            final(self).edge_alloc_margin() == old(self).edge_alloc_margin(),
    {
        proof {
            lemma_vertex_map_dom(self.vertices@);
        }
        if self.next_vertex_id <= v.0 {
            self.next_vertex_id = v.0 + 1;
        }
        let r = VertexRecord {
            id: v,
            vertex: Vertex { label },
            position,
            tracker: ClickTracker { last_click_time: None, click_count: 0 },
        };
        self.vertices.push(r);
        proof {
            let s0 = old(self).vertices@;
            let s1 = self.vertices@;
            assert(s1 == s0.push(s1.last()));
            assert(!seq_has_vertex(s0, v));
            lemma_vertex_record_pushed(*old(self), *self);
            assert(self@.vertices == old(self)@.vertices.insert(
                v,
                VertexView { position, label: r.vertex.label@ },
            ));
            self.lemma_vertex_at(s1.len() - 1);
        }
    }

    /// Move a present vertex.
    pub(crate) fn set_vertex_position(&mut self, v: VertexId, position: Position)
        requires
            old(self).wf(),
            old(self)@.vertices.dom().contains(v),
        ensures
            final(self).wf(),
            final(self)@.vertices == old(self)@.vertices.insert(
                v,
                VertexView { position, label: old(self)@.vertices[v].label },
            ),
            final(self)@.edges == old(self)@.edges,
            final(self).vertex_alloc_margin() == old(self).vertex_alloc_margin(),
            final(self).edge_alloc_margin() == old(self).edge_alloc_margin(),
    {
        proof {
            lemma_vertex_map_dom(self.vertices@);
        }
        let found = self.find_vertex_index(v);
        let i = found.unwrap();
        proof {
            self.lemma_vertex_at(i as int);
        }
        let mut r = self.vertices.remove(i);
        r.position = position;
        self.vertices.insert(i, r);
        proof {
            assert(self.vertices@ =~= old(self).vertices@.update(
                i as int,
                self.vertices@[i as int],
            ));
            lemma_vertex_record_updated(*old(self), *self, i as int);
        }
    }

    /// Relabel a present vertex.
    pub(crate) fn set_vertex_label(&mut self, v: VertexId, label: String)
        requires
            old(self).wf(),
            old(self)@.vertices.dom().contains(v),
        ensures
            final(self).wf(),
            final(self)@.vertices == old(self)@.vertices.insert(
                v,
                VertexView { position: old(self)@.vertices[v].position, label: label@ },
            ),
            final(self)@.edges == old(self)@.edges,
            final(self).vertex_alloc_margin() == old(self).vertex_alloc_margin(),
            final(self).edge_alloc_margin() == old(self).edge_alloc_margin(),
    {
        proof {
            lemma_vertex_map_dom(self.vertices@);
        }
        let found = self.find_vertex_index(v);
        let i = found.unwrap();
        proof {
            self.lemma_vertex_at(i as int);
        }
        let mut r = self.vertices.remove(i);
        r.vertex = Vertex { label };
        self.vertices.insert(i, r);
        proof {
            assert(self.vertices@ =~= old(self).vertices@.update(
                i as int,
                self.vertices@[i as int],
            ));
            lemma_vertex_record_updated(*old(self), *self, i as int);
        }
    }

    /// Replace the click bookkeeping of a present vertex.  The model is
    /// untouched.
    pub(crate) fn set_tracker(&mut self, v: VertexId, t: ClickTracker)
        requires
            old(self).wf(),
            old(self)@.vertices.dom().contains(v),
        ensures
            final(self).wf(),
            final(self)@ == old(self)@,
            final(self).tracker_of(v) == t,
            final(self).vertex_alloc_margin() == old(self).vertex_alloc_margin(),
            final(self).edge_alloc_margin() == old(self).edge_alloc_margin(),
    {
        proof {
            lemma_vertex_map_dom(self.vertices@);
        }
        let found = self.find_vertex_index(v);
        let i = found.unwrap();
        proof {
            self.lemma_vertex_at(i as int);
        }
        let mut r = self.vertices.remove(i);
        r.tracker = t;
        self.vertices.insert(i, r);
        proof {
            let s0 = old(self).vertices@;
            assert(self.vertices@ =~= s0.update(i as int, self.vertices@[i as int]));
            lemma_vertex_record_updated(*old(self), *self, i as int);
            assert(vertex_view_of(self.vertices@[i as int]) == vertex_view_of(s0[i as int]));
            assert(self@.vertices =~= old(self)@.vertices);
            assert(self@ =~= old(self)@);
            self.lemma_vertex_at(i as int);
        }
    }

    /// Delete a vertex together with every edge incident to it.  Deleting
    /// an absent vertex does nothing.
    pub(crate) fn remove_vertex_cascade(&mut self, v: VertexId)
        requires
            old(self).wf(),
        ensures
            final(self).wf(),
            old(self)@.vertices.dom().contains(v) ==> final(self)@.vertices == old(self)@.vertices.remove(v) && final(self)@.edges == cascade_edges(old(self)@.edges, v),
            !old(self)@.vertices.dom().contains(v) ==> *final(self) == *old(self),
            forall|w: VertexId|
                w != v && old(self)@.vertices.dom().contains(w) ==> final(self).tracker_of(w)
                    == old(self).tracker_of(w),
            final(self).vertex_alloc_margin() == old(self).vertex_alloc_margin(),
            final(self).edge_alloc_margin() == old(self).edge_alloc_margin(),
    {
        proof {
            lemma_vertex_map_dom(self.vertices@);
        }
        let found = self.find_vertex_index(v);
        match found {
            None => {},
            Some(i) => {
                proof {
                    assert(old(self).vertices@[i as int].id == v);
                    assert(seq_has_vertex(old(self).vertices@, v));
                    assert(old(self)@.vertices.dom().contains(v));
                }
                let _removed = self.vertices.remove(i);
                let n = self.edges.len();
                let mut kept: Vec<EdgeRecord> = Vec::new();
                for j in 0..n
                    invariant
                        n == self.edges@.len(),
                        kept@ == filter_incident(self.edges@.take(j as int), v),
                {
                    let rec = self.edges[j];
                    proof {
                        assert(self.edges@.take(j + 1).drop_last() =~= self.edges@.take(j as int));
                        assert(self.edges@.take(j + 1).last() == self.edges@[j as int]);
                    }
                    if !(rec.edge.from.0 == v.0 || rec.edge.to.0 == v.0) {
                        kept.push(rec);
                    }
                }
                proof {
                    assert(self.edges@.take(n as int) =~= self.edges@);
                }
                self.edges = kept;
                proof {
                    let vs0 = old(self).vertices@;
                    let es0 = old(self).edges@;
                    lemma_vertex_map_remove(vs0, i as int);
                    lemma_vertex_ids_unique_remove(vs0, i as int);
                    lemma_filter_incident_unique(es0, v);
                    lemma_filter_incident_membership(es0, v);
                    lemma_edge_map_filter(es0, v);
                    lemma_vertex_map_dom(vs0);
                    assert(vs0[i as int].id == v);
                    // Counter bounds carry over: every kept record occurs in
                    // the old sequence.
                    assert forall|k: int|
                        0 <= k < self.edges@.len() implies (#[trigger] self.edges@[k]).id.0
                        < self.next_edge_id by {
                        let j = choose|j: int| 0 <= j < es0.len() && es0[j] == self.edges@[k];
                        assert(es0[j].id.0 < self.next_edge_id);
                    }
                    // Kept endpoints are distinct from `v`, so they survive.
                    assert forall|k: int|
                        0 <= k < self.edges@.len() implies seq_has_vertex(
                        self.vertices@,
                        (#[trigger] self.edges@[k]).edge.from,
                    ) && seq_has_vertex(self.vertices@, self.edges@[k].edge.to) by {
                        let j = choose|j: int| 0 <= j < es0.len() && es0[j] == self.edges@[k];
                        assert(!edge_incident(es0[j].edge, v));
                        lemma_seq_has_vertex_remove(vs0, i as int, es0[j].edge.from);
                        lemma_seq_has_vertex_remove(vs0, i as int, es0[j].edge.to);
                    }
                    assert(self.wf());
                    // The surviving vertices keep their click bookkeeping:
                    // each record other than the removed one is untouched.
                    assert forall|w: VertexId|
                        w != v && old(self)@.vertices.dom().contains(w) implies self.tracker_of(w)
                            == old(self).tracker_of(w) by {
                        assert(seq_has_vertex(vs0, w));
                        let j = choose|j: int| 0 <= j < vs0.len() && vs0[j].id == w;
                        let j0 = old(self).vertex_index_of(w);
                        assert(0 <= j0 < vs0.len() && vs0[j0].id == w);
                        lemma_vertex_index_unique(vs0, j, j0);
                        let j2: int = if j < i as int {
                            j
                        } else {
                            j - 1
                        };
                        assert(self.vertices@[j2] == vs0[j]);
                        assert(seq_has_vertex(self.vertices@, w));
                        let j3 = self.vertex_index_of(w);
                        assert(0 <= j3 < self.vertices@.len() && self.vertices@[j3].id == w);
                        lemma_vertex_index_unique(self.vertices@, j2, j3);
                    }
                }
            },
        }
    }

    /// Create an edge between two present vertices under a fresh handle.
    pub(crate) fn insert_fresh_edge(&mut self, from: VertexId, to: VertexId) -> (e: EdgeId)
        requires
            old(self).wf(),
            old(self).can_alloc_edge(),
            old(self)@.vertices.dom().contains(from),
            old(self)@.vertices.dom().contains(to),
        ensures
            final(self).wf(),
            !old(self)@.edges.dom().contains(e),
            e.0 < u64::MAX,
            final(self)@.edges == old(self)@.edges.insert(e, DirectedEdge { from, to }),
            final(self)@.vertices == old(self)@.vertices,
            final(self).vertex_alloc_margin() == old(self).vertex_alloc_margin(),
            final(self).edge_alloc_margin() == old(self).edge_alloc_margin() - 1,
    {
        proof {
            self.lemma_edge_dom_bound();
            lemma_vertex_map_dom(self.vertices@);
        }
        let e = EdgeId(self.next_edge_id);
        self.next_edge_id = self.next_edge_id + 1;
        self.edges.push(EdgeRecord { id: e, edge: DirectedEdge { from, to } });
        proof {
            let s0 = old(self).edges@;
            assert(self.edges@ == s0.push(self.edges@.last()));
            assert forall|k: int| 0 <= k < s0.len() implies (#[trigger] s0[k]).id != e by {
                assert(s0[k].id.0 < old(self).next_edge_id);
            }
            lemma_edge_record_pushed(*old(self), *self);
        }
        e
    }

    /// Re-create an edge under a given handle, as the undo of an edge
    /// deletion does.  The handle must be free and the endpoints present.
    pub(crate) fn insert_edge_with_id(&mut self, e: EdgeId, from: VertexId, to: VertexId)
        requires
            old(self).wf(),
            !old(self)@.edges.dom().contains(e),
            e.0 < u64::MAX,
            old(self)@.vertices.dom().contains(from),
            old(self)@.vertices.dom().contains(to),
        ensures
            final(self).wf(),
            final(self)@.edges == old(self)@.edges.insert(e, DirectedEdge { from, to }),
            final(self)@.vertices == old(self)@.vertices,
            final(self).vertex_alloc_margin() == old(self).vertex_alloc_margin(),
            final(self).edge_alloc_margin() <= old(self).edge_alloc_margin(),
    {
        proof {
            lemma_edge_map_dom(self.edges@);
            lemma_vertex_map_dom(self.vertices@);
        }
        if self.next_edge_id <= e.0 {
            self.next_edge_id = e.0 + 1;
        }
        self.edges.push(EdgeRecord { id: e, edge: DirectedEdge { from, to } });
        proof {
            let s0 = old(self).edges@;
            assert(self.edges@ == s0.push(self.edges@.last()));
            assert(!seq_has_edge(s0, e));
            lemma_edge_record_pushed(*old(self), *self);
        }
    }

    /// Rewrite the endpoints of a present edge.
    pub(crate) fn set_edge_endpoints(&mut self, e: EdgeId, from: VertexId, to: VertexId)
        requires
            old(self).wf(),
            old(self)@.edges.dom().contains(e),
            old(self)@.vertices.dom().contains(from),
            old(self)@.vertices.dom().contains(to),
        ensures
            final(self).wf(),
            final(self)@.edges == old(self)@.edges.insert(e, DirectedEdge { from, to }),
            final(self)@.vertices == old(self)@.vertices,
            final(self).vertex_alloc_margin() == old(self).vertex_alloc_margin(),
            final(self).edge_alloc_margin() == old(self).edge_alloc_margin(),
    {
        proof {
            lemma_edge_map_dom(self.edges@);
            lemma_vertex_map_dom(self.vertices@);
        }
        let found = self.find_edge_index(e);
        let i = found.unwrap();
        proof {
            self.lemma_edge_at(i as int);
        }
        let mut r = self.edges.remove(i);
        r.edge = DirectedEdge { from, to };
        self.edges.insert(i, r);
        proof {
            let s0 = old(self).edges@;
            assert(self.edges@ =~= s0.update(i as int, self.edges@[i as int]));
            lemma_edge_map_update(s0, i as int, self.edges@[i as int]);
            assert forall|a: int, b: int|
                0 <= a < b < self.edges@.len() implies self.edges@[a].id != self.edges@[b].id by {
                assert(s0[a].id != s0[b].id);
            }
            assert forall|k: int|
                0 <= k < self.edges@.len() implies seq_has_vertex(
                self.vertices@,
                (#[trigger] self.edges@[k]).edge.from,
            ) && seq_has_vertex(self.vertices@, self.edges@[k].edge.to) by {
                if k != i as int {
                    assert(self.edges@[k] == s0[k]);
                }
            }
            assert(self.wf());
        }
    }

    /// Delete a present edge; deleting an absent edge does nothing.
    pub(crate) fn remove_edge(&mut self, e: EdgeId)
        requires
            old(self).wf(),
        ensures
            final(self).wf(),
            old(self)@.edges.dom().contains(e) ==> final(self)@.edges == old(self)@.edges.remove(
                e,
            ) && final(self)@.vertices == old(self)@.vertices,
            !old(self)@.edges.dom().contains(e) ==> *final(self) == *old(self),
            final(self).vertex_alloc_margin() == old(self).vertex_alloc_margin(),
            final(self).edge_alloc_margin() == old(self).edge_alloc_margin(),
    {
        proof {
            lemma_edge_map_dom(self.edges@);
        }
        let found = self.find_edge_index(e);
        match found {
            None => {},
            Some(i) => {
                proof {
                    assert(old(self).edges@[i as int].id == e);
                    assert(seq_has_edge(old(self).edges@, e));
                    assert(old(self)@.edges.dom().contains(e));
                }
                let _removed = self.edges.remove(i);
                proof {
                    let s0 = old(self).edges@;
                    lemma_edge_map_remove(s0, i as int);
                    lemma_edge_ids_unique_remove(s0, i as int);
                    assert forall|k: int|
                        0 <= k < self.edges@.len() implies (#[trigger] self.edges@[k]).id.0
                        < self.next_edge_id && seq_has_vertex(
                        self.vertices@,
                        self.edges@[k].edge.from,
                    ) && seq_has_vertex(self.vertices@, self.edges@[k].edge.to) by {
                        let k0: int = if k < i as int { k } else { k + 1 };
                        assert(self.edges@[k] == s0[k0]);
                    }
                    assert(self.wf());
                }
            },
        }
    }
}

} // verus!
