//! Deadlock detection for a simulated four-way junction.
//!
//! Agents ("buses") each need exclusive access to a directional lock, the
//! perpendicular neighbour's lock, and a shared crossing lock.  A wait-for
//! graph records which agent is waiting for which lock and which lock is
//! held by which agent; a cycle in that graph is a deadlock.

pub mod arguments;

pub mod bus;

pub mod direction;

pub mod graph;

pub mod manager;
