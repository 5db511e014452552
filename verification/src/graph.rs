//! The wait-for graph.
//!
//! Nodes are small integers: ids 0..=3 are the four directional lock nodes,
//! ids 4.. stand for agents ("buses").  A directed edge tagged [`REQUEST`]
//! from an agent to a lock node means the agent is waiting for that lock; an
//! edge tagged [`OWNERSHIP`] from a lock node to an agent means the agent
//! holds it.  A directed cycle in this graph is a deadlock.
//!
//! The graph itself is stored in a `petgraph` adjacency map; every operation
//! on it goes through a small trusted wrapper whose contract states, over the
//! abstract node set and edge map, what the `petgraph` source shows.

use vstd::prelude::*;
use crate::direction::{Direction, spec_direction_of_char, spec_valid_direction_char};

verus! {

/// Edge tag: the source agent is waiting for the target lock.
pub const REQUEST: u64 = 1;

/// Edge tag: the target agent holds the source lock.
pub const OWNERSHIP: u64 = 2;

/// The concrete store: a `petgraph` directed adjacency map with `u64` node
/// identifiers and `u64` edge weights.
pub type EdgeStore = petgraph::graphmap::DiGraphMap<u64, u64>;

/// The abstract node set of the store.
pub uninterp spec fn gm_nodes(g: EdgeStore) -> Set<u64>;

/// The abstract edge map of the same graph: each present directed edge
/// `(from, to)` mapped to its weight.
pub uninterp spec fn gm_edges(g: EdgeStore) -> Map<(u64, u64), u64>;

#[verifier::external_type_specification]
#[verifier::external_body]
#[verifier::reject_recursive_types(N)]
#[verifier::reject_recursive_types(E)]
#[verifier::reject_recursive_types(Ty)]
#[verifier::reject_recursive_types(S)]
pub struct ExGraphMap<N, E, Ty, S>(petgraph::graphmap::GraphMap<N, E, Ty, S>)
    where S: std::hash::BuildHasher;

#[verifier::external_type_specification]
#[verifier::external_body]
pub struct ExDirected(petgraph::Directed);

/// Relies on `petgraph::graphmap::GraphMap::new`: an empty graph.
#[verifier::external_body]
fn gm_new() -> (out: EdgeStore)
    ensures
        gm_nodes(out) =~= Set::empty(),
        gm_edges(out) =~= Map::empty(),
{
    petgraph::graphmap::DiGraphMap::new()
}

/// Relies on `petgraph::graphmap::GraphMap::add_node`: inserts the node,
/// leaves the edges alone.
#[verifier::external_body]
fn gm_add_node(g: &mut EdgeStore, n: u64)
    ensures
        gm_nodes(*final(g)) == gm_nodes(*old(g)).insert(n),
        gm_edges(*final(g)) == gm_edges(*old(g)),
{
    g.add_node(n);
}

/// Relies on `petgraph::graphmap::GraphMap::remove_node`: removes the node
/// and every edge incident to it, and reports whether it was present.
#[verifier::external_body]
fn gm_remove_node(g: &mut EdgeStore, n: u64) -> (r: bool)
    ensures
        r == gm_nodes(*old(g)).contains(n),
        gm_nodes(*final(g)) == gm_nodes(*old(g)).remove(n),
        gm_edges(*final(g)) == gm_edges(*old(g)).restrict(
            Set::new(|k: (u64, u64)| k.0 != n && k.1 != n),
        ),
{
    g.remove_node(n)
}

/// Relies on `petgraph::graphmap::GraphMap::add_edge`: inserts or updates
/// the directed edge, inserting its endpoints if absent, and returns the
/// previous weight if the edge already existed.
#[verifier::external_body]
fn gm_add_edge(
    g: &mut EdgeStore,
    a: u64,
    b: u64,
    w: u64,
) -> (r: Option<u64>)
    ensures
        gm_nodes(*final(g)) == gm_nodes(*old(g)).insert(a).insert(b),
        gm_edges(*final(g)) == gm_edges(*old(g)).insert((a, b), w),
        r is Some <==> gm_edges(*old(g)).dom().contains((a, b)),
        r matches Some(w0) ==> w0 == gm_edges(*old(g))[(a, b)],
{
    g.add_edge(a, b, w)
}

/// Relies on `petgraph::graphmap::GraphMap::remove_edge`: removes the
/// directed edge, leaves the nodes alone, and returns the weight it had.
#[verifier::external_body]
fn gm_remove_edge(
    g: &mut EdgeStore,
    a: u64,
    b: u64,
) -> (r: Option<u64>)
    ensures
        gm_nodes(*final(g)) == gm_nodes(*old(g)),
        gm_edges(*final(g)) == gm_edges(*old(g)).remove((a, b)),
        r is Some <==> gm_edges(*old(g)).dom().contains((a, b)),
        r matches Some(w0) ==> w0 == gm_edges(*old(g))[(a, b)],
{
    g.remove_edge(a, b)
}

/// Relies on `petgraph::graphmap::GraphMap::node_count`.
#[verifier::external_body]
fn gm_node_count(g: &EdgeStore) -> (r: usize)
    ensures
        r == gm_nodes(*g).len(),
{
    g.node_count()
}

/// Relies on `petgraph::graphmap::GraphMap::edge_count`.
#[verifier::external_body]
fn gm_edge_count(g: &EdgeStore) -> (r: usize)
    ensures
        r == gm_edges(*g).dom().len(),
{
    g.edge_count()
}

/// A closed directed walk through `es`: consecutive entries are edges, and
/// so is the step from the last entry back to the first.
pub open spec fn is_cycle_path(es: Set<(u64, u64)>, p: Seq<u64>) -> bool {
    &&& p.len() >= 1
    &&& forall|i: int| 0 <= i < p.len() - 1 ==> #[trigger] es.contains((p[i], p[i + 1]))
    &&& es.contains((p[p.len() - 1], p[0]))
}

/// A directed graph with edge set `es` contains a cycle.
pub open spec fn has_cycle(es: Set<(u64, u64)>) -> bool {
    exists|p: Seq<u64>| is_cycle_path(es, p)
}

/// Relies on `petgraph::algo::is_cyclic_directed`: true exactly when the
/// graph contains a directed cycle.
#[verifier::external_body]
fn gm_is_cyclic(g: &EdgeStore) -> (r: bool)
    ensures
        r == has_cycle(gm_edges(*g).dom()),
{
    petgraph::algo::is_cyclic_directed(&*g)
}

/// Reported by [`Graph::deadlock`] when the wait-for graph contains a
/// circular wait.
#[derive(Clone, Copy, PartialEq, Eq, Structural, Debug)]
pub struct DeadlockError;

/// A handle to one directed edge, returned by the operations that add it and
/// handed back to the ones that remove it.
#[derive(Clone, Copy, PartialEq, Eq, Structural, Debug)]
pub struct EdgeHandle {
    pub from: u64,
    pub to: u64,
}

/// The node id of the lock for a direction.
pub open spec fn spec_lock_id(d: Direction) -> u64 {
    match d {
        Direction::North => 0,
        Direction::South => 1,
        Direction::East => 2,
        Direction::West => 3,
    }
}

/// The node id standing for the agent with id `id`.
pub open spec fn spec_bus_node(id: u64) -> u64
    recommends
        id + 4 <= u64::MAX,
{
    (id + 4) as u64
}

/// `m` with every edge incident to node `n` removed.
pub open spec fn edges_without(m: Map<(u64, u64), u64>, n: u64) -> Map<(u64, u64), u64> {
    m.restrict(Set::new(|k: (u64, u64)| k.0 != n && k.1 != n))
}

/// What a deadlock check reports of an edge set: the dedicated error when
/// the graph has a cycle, success otherwise.
pub open spec fn spec_check(es: Set<(u64, u64)>) -> Result<(), DeadlockError> {
    if has_cycle(es) {
        Err(DeadlockError)
    } else {
        Ok(())
    }
}

/// The wait-for graph: four fixed directional lock nodes plus one node per
/// live agent, with request edges (agent to lock) and ownership edges (lock
/// to agent).
pub struct Graph {
    store: EdgeStore,
}

impl Graph {
    /// The set of node ids currently in the graph.
    pub closed spec fn nodes(self) -> Set<u64> {
        gm_nodes(self.store)
    }

    /// The current directed edges, each mapped to its tag.
    pub closed spec fn edges(self) -> Map<(u64, u64), u64> {
        gm_edges(self.store)
    }

    /// The four lock nodes are always present.
    pub open spec fn wf(self) -> bool {
        forall|d: Direction| #[trigger] self.nodes().contains(spec_lock_id(d))
    }

    /// A fresh graph holding exactly the four lock nodes and no edges.
    pub fn new() -> (g: Graph)
        ensures
            g.wf(),
            g.nodes() =~= set![0u64, 1u64, 2u64, 3u64],
            g.edges() =~= Map::empty(),
    {
        let mut store = gm_new();
        gm_add_node(&mut store, 0);
        gm_add_node(&mut store, 1);
        gm_add_node(&mut store, 2);
        gm_add_node(&mut store, 3);
        let g = Graph { store };
        proof {
            assert(g.nodes() =~= set![0u64, 1u64, 2u64, 3u64]);
            assert(g.wf()) by {
                assert forall|d: Direction| #[trigger] g.nodes().contains(spec_lock_id(d)) by {
                    assert(spec_lock_id(d) == 0 || spec_lock_id(d) == 1 || spec_lock_id(d) == 2
                        || spec_lock_id(d) == 3);
                }
            }
        }
        g
    }

    /// The lock node id for a direction symbol, either case.
    fn lock_node_of_char(c: char) -> (n: u64)
        requires
            spec_valid_direction_char(c),
        ensures
            n == spec_lock_id(spec_direction_of_char(c).unwrap()),
    {
        match c {
            'N' | 'n' => 0,
            'S' | 's' => 1,
            'E' | 'e' => 2,
            _ => 3,
        }
    }

    /// Add the node standing for a newly started agent, with no edges yet.
    pub fn start_bus(&mut self, id: usize) -> (n: u64)
        requires
            old(self).wf(),
            id + 4 <= u64::MAX,
        ensures
            n == spec_bus_node(id as u64),
            final(self).nodes() == old(self).nodes().insert(n),
            final(self).edges() == old(self).edges(),
            final(self).wf(),
    {
        let n = id as u64 + 4;
        gm_add_node(&mut self.store, n);
        n
    }

    /// Remove the agent's node and every edge incident to it.
    pub fn remove_bus(&mut self, node: u64)
        requires
            old(self).wf(),
            node >= 4,
        ensures
            final(self).nodes() == old(self).nodes().remove(node),
            final(self).edges() == edges_without(old(self).edges(), node),
            final(self).wf(),
    {
        gm_remove_node(&mut self.store, node);
        proof {
            assert forall|d: Direction| #[trigger] self.nodes().contains(spec_lock_id(d)) by {
                assert(old(self).nodes().contains(spec_lock_id(d)));
                assert(spec_lock_id(d) < 4);
            }
        }
    }

    /// Record that the agent is waiting for the lock of `direction`: add a
    /// request edge from the agent's node to that lock node.
    pub fn request(&mut self, bus_node: u64, direction: char) -> (e: EdgeHandle)
        requires
            old(self).wf(),
            spec_valid_direction_char(direction),
        ensures
            e.from == bus_node,
            e.to == spec_lock_id(spec_direction_of_char(direction).unwrap()),
            final(self).edges() == old(self).edges().insert((e.from, e.to), REQUEST),
            final(self).nodes() =~= old(self).nodes().insert(bus_node),
            final(self).wf(),
    {
        let lock = Self::lock_node_of_char(direction);
        gm_add_edge(&mut self.store, bus_node, lock, REQUEST);
        proof {
            assert(old(self).nodes().contains(lock));
            assert(self.nodes() =~= old(self).nodes().insert(bus_node));
        }
        EdgeHandle { from: bus_node, to: lock }
    }

    /// Convert a pending request into ownership: remove the request edge and
    /// add the reverse ownership edge from the lock node to the agent.  When
    /// the handle matches the pending request, the request edge and its
    /// reverse ownership edge never coexist for the same agent-lock pair.
    pub fn receive(&mut self, bus_node: u64, request_edge: EdgeHandle, direction: char) -> (e:
        EdgeHandle)
        requires
            old(self).wf(),
            spec_valid_direction_char(direction),
        ensures
            e.from == spec_lock_id(spec_direction_of_char(direction).unwrap()),
            e.to == bus_node,
            final(self).edges() == old(self).edges().remove(
                (request_edge.from, request_edge.to),
            ).insert((e.from, e.to), OWNERSHIP),
            final(self).edges()[(e.from, e.to)] == OWNERSHIP,
            request_edge.from == bus_node && request_edge.to == e.from && bus_node != e.from
                ==> !final(self).edges().dom().contains((bus_node, e.from)),
            final(self).nodes() =~= old(self).nodes().insert(bus_node),
            final(self).wf(),
    {
        let lock = Self::lock_node_of_char(direction);
        gm_remove_edge(&mut self.store, request_edge.from, request_edge.to);
        gm_add_edge(&mut self.store, lock, bus_node, OWNERSHIP);
        proof {
            assert(old(self).nodes().contains(lock));
            assert(self.nodes() =~= old(self).nodes().insert(bus_node));
        }
        EdgeHandle { from: lock, to: bus_node }
    }

    /// Remove one edge, request or ownership, by its handle.
    pub fn release(&mut self, edge: EdgeHandle)
        requires
            old(self).wf(),
        ensures
            final(self).edges() == old(self).edges().remove((edge.from, edge.to)),
            final(self).nodes() == old(self).nodes(),
            final(self).wf(),
    {
        gm_remove_edge(&mut self.store, edge.from, edge.to);
    }

    /// The deadlock check: a pure read reporting [`DeadlockError`] exactly
    /// when the graph contains a directed cycle.
    pub fn deadlock(&self) -> (r: Result<(), DeadlockError>)
        ensures
            r == spec_check(self.edges().dom()),
            r is Ok <==> !has_cycle(self.edges().dom()),
    {
        if gm_is_cyclic(&self.store) {
            Err(DeadlockError)
        } else {
            Ok(())
        }
    }

    /// The number of nodes now in the graph.
    pub fn node_count(&self) -> (r: usize)
        ensures
            r == self.nodes().len(),
    {
        gm_node_count(&self.store)
    }

    /// The number of edges now in the graph.
    pub fn edge_count(&self) -> (r: usize)
        ensures
            r == self.edges().dom().len(),
    {
        gm_edge_count(&self.store)
    }
}

/// A graph without a circular wait passes the deadlock check: whenever the
/// edge set has no cycle, the check's result is success.
pub proof fn lemma_no_cycle_check_succeeds(es: Set<(u64, u64)>, r: Result<(), DeadlockError>)
    requires
        !has_cycle(es),
        r == spec_check(es),
    ensures
        r is Ok,
{
}

/// The deadlock check is idempotent: two checks of the same edge set, with
/// no mutation in between, report the same result.
pub proof fn lemma_check_idempotent(
    es: Set<(u64, u64)>,
    r1: Result<(), DeadlockError>,
    r2: Result<(), DeadlockError>,
)
    requires
        r1 == spec_check(es),
        r2 == spec_check(es),
    ensures
        r1 == r2,
{
}

/// Deregistration leaves no trace: after an agent's node is removed, the
/// node is gone from the node set and no edge incident to it remains.
pub proof fn lemma_deregister_no_trace(ns: Set<u64>, m: Map<(u64, u64), u64>, n: u64)
    ensures
        !ns.remove(n).contains(n),
        forall|k: (u64, u64)| #[trigger]
            edges_without(m, n).dom().contains(k) ==> k.0 != n && k.1 != n,
        forall|k: (u64, u64)| #[trigger]
            edges_without(m, n).dom().contains(k) ==> m.dom().contains(k) && edges_without(
                m,
                n,
            )[k] == m[k],
{
}

/// Two agents `a` and `b` in a crossed wait deadlock: if `a` holds `r1` and
/// requests `r2` while `b` holds `r2` and requests `r1`, the graph has a
/// cycle, so the deadlock check reports it.
pub proof fn lemma_crossed_wait_has_cycle(es: Set<(u64, u64)>, a: u64, b: u64, r1: u64, r2: u64)
    requires
        es.contains((r1, a)),
        es.contains((a, r2)),
        es.contains((r2, b)),
        es.contains((b, r1)),
    ensures
        has_cycle(es),
        spec_check(es) is Err,
{
    let p = seq![a, r2, b, r1];
    assert(es.contains((p[3], p[0])));
    assert(is_cycle_path(es, p));
}

/// Along a directed walk whose every step is an edge of `es`, a rank that
/// strictly increases across each edge never decreases.
proof fn lemma_rank_monotone(es: Set<(u64, u64)>, rank: spec_fn(u64) -> int, p: Seq<u64>, i: int)
    requires
        forall|a: u64, b: u64| #[trigger] es.contains((a, b)) ==> rank(a) < rank(b),
        0 <= i < p.len(),
        forall|j: int| 0 <= j < p.len() - 1 ==> #[trigger] es.contains((p[j], p[j + 1])),
    ensures
        rank(p[0]) <= rank(p[i]),
    decreases i,
{
    if i > 0 {
        lemma_rank_monotone(es, rank, p, i - 1);
        let j = i - 1;
        assert(p[j + 1] == p[i]);
        assert(es.contains((p[j], p[j + 1])));
    }
}

/// If some rank strictly increases across every edge, the graph has no
/// cycle: a closed walk would raise the rank back to where it started.
pub proof fn lemma_increasing_rank_acyclic(es: Set<(u64, u64)>, rank: spec_fn(u64) -> int)
    requires
        forall|a: u64, b: u64| #[trigger] es.contains((a, b)) ==> rank(a) < rank(b),
    ensures
        !has_cycle(es),
{
    if has_cycle(es) {
        let p = choose|p: Seq<u64>| is_cycle_path(es, p);
        lemma_rank_monotone(es, rank, p, p.len() - 1);
        assert(es.contains((p[p.len() - 1], p[0])));
    }
}

/// Waiting alone is never a deadlock: a graph whose every edge is a pending
/// request, from an agent node to a lock node, has no cycle, so the check
/// succeeds.
pub proof fn lemma_requests_only_no_deadlock(es: Set<(u64, u64)>)
    requires
        forall|a: u64, b: u64| #[trigger] es.contains((a, b)) ==> a >= 4 && b < 4,
    ensures
        !has_cycle(es),
        spec_check(es) is Ok,
{
    let rank = (|n: u64| if n >= 4 { 0int } else { 1int });
    lemma_increasing_rank_acyclic(es, rank);
}

/// The four-way rotation deadlock: four agents each holding one lock and
/// waiting for the lock held by the next agent around the rotation form a
/// cycle, so the deadlock check reports it.
pub proof fn lemma_rotation_wait_has_cycle(
    es: Set<(u64, u64)>,
    agents: (u64, u64, u64, u64),
    locks: (u64, u64, u64, u64),
)
    requires
        es.contains((locks.0, agents.0)),
        es.contains((agents.0, locks.1)),
        es.contains((locks.1, agents.1)),
        es.contains((agents.1, locks.2)),
        es.contains((locks.2, agents.2)),
        es.contains((agents.2, locks.3)),
        es.contains((locks.3, agents.3)),
        es.contains((agents.3, locks.0)),
    ensures
        has_cycle(es),
        spec_check(es) is Err,
{
    let p = seq![agents.0, locks.1, agents.1, locks.2, agents.2, locks.3, agents.3, locks.0];
    assert(es.contains((p[7], p[0])));
    assert(is_cycle_path(es, p));
}

} // verus!
