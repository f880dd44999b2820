use kyles_algorithm_crate::graph::{Edge, Graph, Node};

#[test]
fn graph_test_add_node() {
    let mut graph = Graph::new();

    let zeroth_node = graph.add_node(0);

    assert_eq!(zeroth_node, 0);
    assert_eq!(graph.nodes.len(), 1);
    assert_eq!(graph.nodes.get(&zeroth_node).unwrap().data, 0);

    let first_node = graph.add_node(1);

    assert_eq!(first_node, 1);
    assert_eq!(graph.nodes.len(), 2);
    assert_eq!(graph.nodes.get(&zeroth_node).unwrap().data, 0);
    assert_eq!(graph.nodes.get(&first_node).unwrap().data, 1);
}

#[test]
fn graph_test_get_node() {
    let mut graph = Graph::new();

    let zeroth_node = graph.add_node('A');
    let first_node = graph.add_node('B');

    {
        let dat = graph.get_node(zeroth_node);
        assert_eq!(dat.unwrap().data, 'A');
    };

    {
        let dat = graph.get_node(first_node);
        assert_eq!(dat.unwrap().data, 'B');
    };

    {
        let dat = graph.get_node(7);
        assert!(dat.is_none());
    }
}

#[test]
fn test_get_node_mut() {
    let mut graph = Graph::new();

    let zeroth_node = graph.add_node('A');
    let first_node = graph.add_node('B');

    {
        let dat = graph.get_node_mut(zeroth_node);
        assert_eq!(dat.unwrap().data, 'A');
    };

    {
        let dat = graph.get_node_mut(first_node);
        assert_eq!(dat.unwrap().data, 'B');
    };

    {
        let dat = graph.get_node_mut(7);
        assert!(dat.is_none());
    }
}

#[test]
fn graph_test_add_directed_edge() {
    let mut graph = Graph::new();

    let zeroth_node = graph.add_node(0);
    let first_node = graph.add_node(1);

    graph.add_directed_edge(zeroth_node, first_node);

    let graph_nodes = &mut graph.nodes;

    let node = &graph_nodes.get(&zeroth_node).unwrap();

    assert_eq!(node.edges.len(), 1);
    assert_eq!(node.edges[0].to, first_node);
    assert_eq!(node.edges[0].weight, 1);

    let node2 = graph_nodes.get(&first_node).unwrap();

    assert_eq!(node2.edges.len(), 0);

    let mut graph2 = Graph::new();

    let node1_id = graph2.add_node(1);
    let node2_id = graph2.add_node(2);

    graph2.add_directed_edge(node1_id, node2_id);
    graph2.add_directed_edge(node2_id, node1_id);

    let graph_nodes2 = &mut graph2.nodes;

    let node = &graph_nodes2.get(&node1_id).unwrap();

    assert_eq!(node.edges.len(), 1);
    assert_eq!(node.edges[0].to, node2_id);
    assert_eq!(node.edges[0].weight, 1);

    let node2 = graph_nodes2.get(&node2_id).unwrap();

    assert_eq!(node2.edges.len(), 1);
    assert_eq!(node2.edges[0].to, node1_id);
    assert_eq!(node2.edges[0].weight, 1);
}

#[test]
fn graph_test_add_undirected_edge() {
    let mut graph = Graph::new();

    let zeroth_node = graph.add_node(0);
    let first_node = graph.add_node(1);

    graph.add_undirected_edge(zeroth_node, first_node);

    let graph_nodes = &mut graph.nodes;

    let node = &graph_nodes.get(&zeroth_node).unwrap();

    assert_eq!(node.edges.len(), 1);
    assert_eq!(node.edges[0].to, first_node);
    assert_eq!(node.edges[0].weight, 1);

    let node2 = graph_nodes.get(&first_node).unwrap();

    assert_eq!(node2.edges.len(), 1);
    assert_eq!(node2.edges[0].to, zeroth_node);
    assert_eq!(node2.edges[0].weight, 1);
}

#[test]
fn graph_test_add_weighted_directed_edge() {
    let mut graph = Graph::new();

    let zeroth_node = graph.add_node(0);
    let first_node = graph.add_node(1);

    graph.add_weighted_directed_edge(zeroth_node, first_node, 15);

    let graph_nodes = &mut graph.nodes;

    let node = &graph_nodes.get(&zeroth_node).unwrap();

    assert_eq!(node.edges.len(), 1);
    assert_eq!(node.edges[0].to, first_node);
    assert_eq!(node.edges[0].weight, 15);

    let node2 = graph_nodes.get(&first_node).unwrap();

    assert_eq!(node2.edges.len(), 0);

    let mut graph2 = Graph::new();

    let node1_id = graph2.add_node(1);
    let node2_id = graph2.add_node(2);

    graph2.add_weighted_directed_edge(node1_id, node2_id, 15);
    graph2.add_weighted_directed_edge(node2_id, node1_id, 20);

    let graph_nodes2 = &mut graph2.nodes;

    let node = &graph_nodes2.get(&node1_id).unwrap();

    assert_eq!(node.edges.len(), 1);
    assert_eq!(node.edges[0].to, node2_id);
    assert_eq!(node.edges[0].weight, 15);

    let node2 = graph_nodes2.get(&node2_id).unwrap();

    assert_eq!(node2.edges.len(), 1);
    assert_eq!(node2.edges[0].to, node1_id);
    assert_eq!(node2.edges[0].weight, 20);
}

#[test]
fn graph_test_add_weighted_undirected_edge() {
    let mut graph = Graph::new();

    let zeroth_node = graph.add_node(0);
    let first_node = graph.add_node(1);

    graph.add_weighted_undirected_edge(zeroth_node, first_node, 15);

    let graph_nodes = &mut graph.nodes;

    let node = &graph_nodes.get(&zeroth_node).unwrap();

    assert_eq!(node.edges.len(), 1);
    assert_eq!(node.edges[0].to, first_node);
    assert_eq!(node.edges[0].weight, 15);

    let node2 = graph_nodes.get(&first_node).unwrap();

    assert_eq!(node2.edges.len(), 1);
    assert_eq!(node2.edges[0].to, zeroth_node);
    assert_eq!(node2.edges[0].weight, 15);
}

#[test]
fn graph_edge_to_missing_node_changes_nothing() {
    let mut graph = Graph::new();
    let only = graph.add_node(7);

    graph.add_directed_edge(5, only);
    graph.add_weighted_directed_edge(9, only, 3);

    assert_eq!(graph.nodes.len(), 1);
    assert_eq!(graph.get_node(only).unwrap().edges.len(), 0);
    assert!(graph.get_node(5).is_none());
}

#[test]
fn graph_edges_keep_their_order() {
    let mut graph = Graph::new();
    let a = graph.add_node("a");
    let b = graph.add_node("b");

    graph.add_weighted_directed_edge(a, b, 2);
    graph.add_directed_edge(a, a);
    graph.add_weighted_undirected_edge(a, b, 9);

    let edges = &graph.get_node(a).unwrap().edges;
    assert_eq!(edges.len(), 3);
    assert_eq!(edges[0], Edge { from: a, to: b, weight: 2 });
    assert_eq!(edges[1], Edge { from: a, to: a, weight: 1 });
    assert_eq!(edges[2], Edge { from: a, to: b, weight: 9 });
    let back = &graph.get_node(b).unwrap().edges;
    assert_eq!(back.len(), 1);
    assert_eq!(back[0], Edge { from: b, to: a, weight: 9 });
}

#[test]
fn graph_node_changed_in_place_stays_changed() {
    let mut graph = Graph::new();
    let a = graph.add_node(10);
    let b = graph.add_node(20);

    graph.get_node_mut(a).unwrap().data = 11;
    graph.get_node_mut(a).unwrap().edges.push(Edge::new(a, b, 4));

    assert_eq!(graph.get_node(a).unwrap().data, 11);
    assert_eq!(graph.get_node(a).unwrap().edges[0], Edge { from: a, to: b, weight: 4 });
    assert_eq!(graph.get_node(b).unwrap().data, 20);
    assert_eq!(graph.nodes.len(), 2);
}

#[test]
fn graph_new_node_and_edge() {
    let node = Node::new('x');
    assert_eq!(node.data, 'x');
    assert!(node.edges.is_empty());

    let edge = Edge::new(1, 2, 10);
    assert_eq!(edge.from, 1);
    assert_eq!(edge.to, 2);
    assert_eq!(edge.weight, 10);

    let graph: Graph<u32> = Graph::new();
    assert!(graph.nodes.is_empty());
}
