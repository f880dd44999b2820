use vstd::prelude::*;
use std::collections::HashMap;

verus! {

/// A directed edge between two nodes, with its weight.
#[derive(Debug, Clone, Copy, PartialEq, Eq, Structural)]
pub struct Edge {
    pub from: u32,
    pub to: u32,
    pub weight: u32,
}

/// A node: its data and the edges that start at it, in the order in which
/// they were added.
#[derive(Debug)]
pub struct Node<T> {
    pub data: T,
    pub edges: Vec<Edge>,
}

/// What a node is: its data and its edges.
pub struct NodeView<T> {
    pub data: T,
    pub edges: Seq<Edge>,
}

impl<T> View for Node<T> {
    type V = NodeView<T>;

    open spec fn view(&self) -> NodeView<T> {
        NodeView { data: self.data, edges: self.edges@ }
    }
}

/// A graph as the list of edges of each of its nodes. A node is known by
/// its number.
pub struct Graph<T> {
    pub nodes: HashMap<u32, Node<T>>,
}

impl<T> View for Graph<T> {
    type V = Map<u32, NodeView<T>>;

    open spec fn view(&self) -> Map<u32, NodeView<T>> {
        self.nodes@.map_values(|n: Node<T>| n@)
    }
}

/// The nodes `nodes` with the edge `e` added to the node it starts at; if
/// there is no such node, `nodes` as they are.
pub open spec fn with_edge<T>(nodes: Map<u32, NodeView<T>>, e: Edge) -> Map<u32, NodeView<T>> {
    if nodes.contains_key(e.from) {
        nodes.insert(
            e.from,
            NodeView { data: nodes[e.from].data, edges: nodes[e.from].edges.push(e) },
        )
    } else {
        nodes
    }
}

/// The number that `add_node` gives to a new node of a graph with `n`
/// nodes: `n` itself, cut down to its lowest 32 bits where it is larger
/// than a node number can be.
pub open spec fn next_id(n: nat) -> u32 {
    n as u32
}

/// The node with number `id` among `nodes`, to be changed in place.
///
/// This is `HashMap::get_mut` of the standard library: it gives the value
/// stored under `id`, if there is one, and what the caller leaves in it is
/// what the map then holds under `id`; nothing else in the map changes.
#[verifier::external_body]
fn node_mut<T>(nodes: &mut HashMap<u32, Node<T>>, id: u32) -> (r: Option<&mut Node<T>>)
    ensures
        match r {
            Some(n) => old(nodes)@.contains_key(id) && *n == old(nodes)@[id] && final(nodes)@
                == old(nodes)@.insert(id, *final(n)),
            None => !old(nodes)@.contains_key(id) && final(nodes)@ == old(nodes)@,
        },
{
    nodes.get_mut(&id)
}

impl<T> Graph<T> {
    /// A graph without nodes.
    pub fn new() -> (g: Self)
        ensures
            g@ == Map::<u32, NodeView<T>>::empty(),
    {
        let g = Graph { nodes: HashMap::new() };
        assert(g@ =~= Map::<u32, NodeView<T>>::empty());
        g
    }

    /// Adds a node with `data` and without edges, and returns its number:
    /// the number of nodes that the graph had.
    pub fn add_node(&mut self, data: T) -> (id: u32)
        ensures
            id == next_id(old(self)@.len()),
            final(self)@ == old(self)@.insert(id, NodeView { data, edges: Seq::empty() }),
    {
        broadcast use vstd::std_specs::hash::group_hash_axioms;

        let node_id = #[verifier::truncate]
        (self.nodes.len() as u32);
        let new_node = Node::new(data);
        self.nodes.insert(node_id, new_node);
        proof {
            assert(old(self)@.dom() =~= old(self).nodes@.dom());
            assert(final(self)@ =~= old(self)@.insert(
                node_id,
                NodeView { data, edges: Seq::empty() },
            ));
        }
        node_id
    }
}

impl<T> Graph<T> {
    /// Adds an edge of weight 1 from node `from` to node `to`, behind the
    /// edges that `from` has. Without a node `from` nothing changes.
    pub fn add_directed_edge(&mut self, from: u32, to: u32)
        ensures
            final(self)@ == with_edge(old(self)@, Edge { from, to, weight: 1 }),
    {
        self.add_weighted_directed_edge(from, to, 1);
    }

    /// Adds an edge of weight 1 from `node1` to `node2`, and then one from
    /// `node2` to `node1`.
    pub fn add_undirected_edge(&mut self, node1: u32, node2: u32)
        ensures
            final(self)@ == with_edge(
                with_edge(old(self)@, Edge { from: node1, to: node2, weight: 1 }),
                Edge { from: node2, to: node1, weight: 1 },
            ),
    {
        self.add_directed_edge(node1, node2);
        self.add_directed_edge(node2, node1);
    }

    /// Adds an edge of weight `weight` from node `from` to node `to`,
    /// behind the edges that `from` has. Without a node `from` nothing
    /// changes.
    pub fn add_weighted_directed_edge(&mut self, from: u32, to: u32, weight: u32)
        ensures
            final(self)@ == with_edge(old(self)@, Edge { from, to, weight }),
    {
        let edge = Edge::new(from, to, weight);
        if let Some(n) = node_mut(&mut self.nodes, from) {
            n.edges.push(edge);
        }
        proof {
            assert(final(self)@ =~= with_edge(old(self)@, edge));
        }
    }

    /// Adds an edge of weight `weight` from `node1` to `node2`, and then
    /// one from `node2` to `node1`.
    pub fn add_weighted_undirected_edge(&mut self, node1: u32, node2: u32, weight: u32)
        ensures
            final(self)@ == with_edge(
                with_edge(old(self)@, Edge { from: node1, to: node2, weight }),
                Edge { from: node2, to: node1, weight },
            ),
    {
        self.add_weighted_directed_edge(node1, node2, weight);
        self.add_weighted_directed_edge(node2, node1, weight);
    }

    /// The node with number `node`, if the graph has one.
    pub fn get_node(&self, node: u32) -> (r: Option<&Node<T>>)
        ensures
            r is Some <==> self@.contains_key(node),
            r is Some ==> *r->Some_0 == self.nodes@[node],
    {
        broadcast use vstd::std_specs::hash::group_hash_axioms;

        self.nodes.get(&node)
    }

    /// The node with number `node`, if the graph has one, to be changed in
    /// place: what the caller leaves in it is the node that the graph then
    /// has under that number.
    pub fn get_node_mut(&mut self, node: u32) -> (r: Option<&mut Node<T>>)
        ensures
            r is Some <==> old(self)@.contains_key(node),
            r is Some ==> *r->Some_0 == old(self).nodes@[node] && final(self).nodes@ == old(
                self,
            ).nodes@.insert(node, *final(r->Some_0)),
            r is None ==> final(self).nodes@ == old(self).nodes@,
    {
        if let Some(res) = node_mut(&mut self.nodes, node) {
            Some(res)
        } else {
            None
        }
    }
}

impl<T> Node<T> {
    /// A node with `data` and without edges.
    pub fn new(data: T) -> (n: Self)
        ensures
            n@ == (NodeView { data, edges: Seq::empty() }),
    {
        Node { data, edges: Vec::new() }
    }
}

impl Edge {
    /// The edge from node `from` to node `to` with weight `weight`.
    pub fn new(from: u32, to: u32, weight: u32) -> (e: Self)
        ensures
            e == (Edge { from, to, weight }),
    {
        Edge { from, to, weight }
    }
}

} // verus!
