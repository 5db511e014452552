use traffic_manager::graph::{DeadlockError, Graph};

#[test]
fn fresh_graph_holds_only_the_four_locks() {
    let g = Graph::new();
    assert_eq!(g.node_count(), 4);
    assert_eq!(g.edge_count(), 0);
    assert!(g.deadlock().is_ok());
}

#[test]
fn single_agent_never_deadlocks() {
    // A lone agent walks its whole protocol; the check succeeds at every
    // point along the way.
    let mut g = Graph::new();
    assert!(g.deadlock().is_ok());
    let a = g.start_bus(0);
    assert!(g.deadlock().is_ok());
    let req = g.request(a, 'N');
    assert!(g.deadlock().is_ok());
    let own = g.receive(a, req, 'N');
    assert!(g.deadlock().is_ok());
    let req2 = g.request(a, 'W');
    assert!(g.deadlock().is_ok());
    let own2 = g.receive(a, req2, 'W');
    assert!(g.deadlock().is_ok());
    g.release(own);
    g.release(own2);
    assert!(g.deadlock().is_ok());
    g.remove_bus(a);
    assert!(g.deadlock().is_ok());
    assert_eq!(g.node_count(), 4);
    assert_eq!(g.edge_count(), 0);
}

#[test]
fn crossed_wait_reports_deadlock() {
    // Agent a owns North and requests South; agent b owns South and
    // requests North: a circular wait.
    let mut g = Graph::new();
    let a = g.start_bus(0);
    let b = g.start_bus(1);
    let req_a = g.request(a, 'N');
    g.receive(a, req_a, 'N');
    let req_b = g.request(b, 'S');
    g.receive(b, req_b, 'S');
    assert!(g.deadlock().is_ok());
    g.request(a, 'S');
    assert!(g.deadlock().is_ok());
    g.request(b, 'N');
    assert_eq!(g.deadlock(), Err(DeadlockError));
}

#[test]
fn deregistration_leaves_no_trace() {
    let mut g = Graph::new();
    let a = g.start_bus(0);
    let b = g.start_bus(1);
    let req_a = g.request(a, 'N');
    g.receive(a, req_a, 'N');
    g.request(a, 'W');
    let req_b = g.request(b, 'S');
    g.receive(b, req_b, 'S');
    assert_eq!(g.node_count(), 6);
    assert_eq!(g.edge_count(), 3);

    // Removing agent a takes its node and both of its edges with it; only
    // agent b and its single ownership edge survive.
    g.remove_bus(a);
    assert_eq!(g.node_count(), 5);
    assert_eq!(g.edge_count(), 1);
    assert!(g.deadlock().is_ok());

    g.remove_bus(b);
    assert_eq!(g.node_count(), 4);
    assert_eq!(g.edge_count(), 0);
}

#[test]
fn repeated_checks_agree() {
    let mut g = Graph::new();
    let a = g.start_bus(0);
    let req = g.request(a, 'E');
    let first = g.deadlock();
    assert_eq!(first, g.deadlock());
    assert_eq!(first, g.deadlock());
    assert!(first.is_ok());

    // The same holds once a cycle exists.
    let b = g.start_bus(1);
    g.receive(a, req, 'E');
    let req_b = g.request(b, 'N');
    g.receive(b, req_b, 'N');
    g.request(a, 'N');
    g.request(b, 'E');
    let broken = g.deadlock();
    assert_eq!(broken, Err(DeadlockError));
    assert_eq!(broken, g.deadlock());
    assert_eq!(broken, g.deadlock());
}

#[test]
fn request_edges_are_counted() {
    // A request adds exactly one edge; converting it into ownership keeps
    // the edge count, release drops it.
    let mut g = Graph::new();
    let a = g.start_bus(7);
    assert_eq!(g.edge_count(), 0);
    let req = g.request(a, 'W');
    assert_eq!(g.edge_count(), 1);
    let own = g.receive(a, req, 'W');
    assert_eq!(g.edge_count(), 1);
    g.release(own);
    assert_eq!(g.edge_count(), 0);
}
