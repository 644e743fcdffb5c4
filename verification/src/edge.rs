//! The edges between the objects of the model.
use crate::text::waiting;
use vstd::prelude::*;

verus! {

/// What an edge means for the two objects it joins.
#[derive(Clone, Copy, Debug, PartialEq, Eq, Structural)]
pub enum EdgeKind {
    Configures,
    Component,
}

/// One end of an edge.
#[derive(Debug)]
pub struct Vertex {
    pub object_id: String,
}

/// An edge leads from the vertex at its tail to the vertex at its head.
#[derive(Debug)]
pub struct Edge {
    pub tail_vertex: Vertex,
    pub head_vertex: Vertex,
}

#[verifier::ext_equal]
pub struct EdgeModel {
    pub tail: Seq<char>,
    pub head: Seq<char>,
}

impl View for Edge {
    type V = EdgeModel;

    open spec fn view(&self) -> EdgeModel {
        EdgeModel { tail: self.tail_vertex.object_id@, head: self.head_vertex.object_id@ }
    }
}

/// The models of a list of edges.
pub open spec fn edge_models(edges: Seq<Edge>) -> Seq<EdgeModel> {
    edges.map_values(|edge: Edge| edge@)
}

/// Where a list of edges comes from.
pub open spec fn tails(edges: Seq<EdgeModel>) -> Seq<Seq<char>> {
    edges.map_values(|edge: EdgeModel| edge.tail)
}

/// Where a list of edges leads to.
pub open spec fn heads(edges: Seq<EdgeModel>) -> Seq<Seq<char>> {
    edges.map_values(|edge: EdgeModel| edge.head)
}

/// Which of the edges at an object are asked for: those that lead to it, or those that
/// lead away from it.
#[derive(Clone, Copy, Debug, PartialEq, Eq, Structural)]
pub enum Direction {
    DirectPredecessors,
    DirectSuccessors,
}

/// Asks for the edges of one kind at an object.
#[derive(Debug)]
pub struct EdgeQuery {
    pub direction: Direction,
    pub kind: EdgeKind,
    pub object_id: String,
}

#[verifier::ext_equal]
pub struct EdgeQueryModel {
    pub direction: Direction,
    pub kind: EdgeKind,
    pub object_id: Seq<char>,
}

impl View for EdgeQuery {
    type V = EdgeQueryModel;

    open spec fn view(&self) -> EdgeQueryModel {
        EdgeQueryModel { direction: self.direction, kind: self.kind, object_id: self.object_id@ }
    }
}

impl Edge {
    /// Asks for the edges of one kind that lead to an object.
    pub fn direct_predecessor_edges_by_object_id(kind: EdgeKind, object_id: &str) -> (query: EdgeQuery)
        ensures
            query@ == (EdgeQueryModel {
                direction: Direction::DirectPredecessors,
                kind: kind,
                object_id: object_id@,
            }),
    {
        EdgeQuery {
            direction: Direction::DirectPredecessors,
            kind: kind,
            object_id: object_id.to_string(),
        }
    }

    /// Asks for the edges of one kind that lead away from an object.
    pub fn direct_successor_edges_by_object_id(kind: EdgeKind, object_id: &str) -> (query: EdgeQuery)
        ensures
            query@ == (EdgeQueryModel {
                direction: Direction::DirectSuccessors,
                kind: kind,
                object_id: object_id@,
            }),
    {
        EdgeQuery {
            direction: Direction::DirectSuccessors,
            kind: kind,
            object_id: object_id.to_string(),
        }
    }
}

/// The objects that a list of edges comes from, the last one first.
pub(crate) fn tail_ids(edges: &Vec<Edge>) -> (ids: Vec<String>)
    ensures
        waiting(ids@) == tails(edge_models(edges@)),
{
    let mut ids: Vec<String> = Vec::new();
    let n: usize = edges.len();
    for i in 0..n
        invariant
            n == edges@.len(),
            ids@.len() == i,
            forall|j: int| 0 <= j < i ==> ids@[j]@ == edges@[n - 1 - j]@.tail,
    {
        ids.push(edges[n - 1 - i].tail_vertex.object_id.clone());
    }
    assert(waiting(ids@) =~= tails(edge_models(edges@)));
    ids
}

/// The objects that a list of edges leads to, the last one first.
pub(crate) fn head_ids(edges: &Vec<Edge>) -> (ids: Vec<String>)
    ensures
        waiting(ids@) == heads(edge_models(edges@)),
{
    let mut ids: Vec<String> = Vec::new();
    let n: usize = edges.len();
    for i in 0..n
        invariant
            n == edges@.len(),
            ids@.len() == i,
            forall|j: int| 0 <= j < i ==> ids@[j]@ == edges@[n - 1 - j]@.head,
    {
        ids.push(edges[n - 1 - i].head_vertex.object_id.clone());
    }
    assert(waiting(ids@) =~= heads(edge_models(edges@)));
    ids
}

/// An edge is known by the objects at its two ends, and a question about edges by its
/// direction, its kind and its object.
pub proof fn law_an_edge_is_known_by_its_ends(edge: Edge, query: EdgeQuery)
    ensures
        edge@.tail == edge.tail_vertex.object_id@,
        edge@.head == edge.head_vertex.object_id@,
        query@.direction == query.direction,
        query@.kind == query.kind,
        query@.object_id == query.object_id@,
{
}

/// A list of edges is known edge by edge, in order, and so is where they come from and where
/// they lead to.
pub proof fn law_edges_keep_their_order(edges: Seq<Edge>, models: Seq<EdgeModel>)
    ensures
        edge_models(edges).len() == edges.len(),
        tails(models).len() == models.len(),
        heads(models).len() == models.len(),
        forall|i: int| 0 <= i < edges.len() ==> #[trigger] edge_models(edges)[i] == edges[i]@,
        forall|i: int| 0 <= i < models.len() ==> #[trigger] tails(models)[i] == models[i].tail,
        forall|i: int| 0 <= i < models.len() ==> #[trigger] heads(models)[i] == models[i].head,
{
}

} // verus!
