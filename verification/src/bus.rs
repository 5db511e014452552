//! One agent ("bus") and its fixed acquisition protocol.
//!
//! A bus must hold its own approach lock, the perpendicular neighbour's
//! lock, and the shared crossing lock before it may cross.  The protocol is
//! a small state machine; the caller performs each returned action (the
//! graph bookkeeping and the real blocking acquisition) and steps again.

use vstd::prelude::*;
use crate::direction::{
    Direction,
    spec_char_of_direction,
    spec_direction_of_char,
    spec_neighbour,
    spec_valid_direction_char,
};

verus! {

/// The neighbour symbol of a direction symbol: the upper-case character of
/// the rotation target.
pub open spec fn spec_neighbour_char(c: char) -> char
    recommends
        spec_valid_direction_char(c),
{
    spec_char_of_direction(spec_neighbour(spec_direction_of_char(c).unwrap()))
}

/// One vehicle: its id, its approach direction symbol, and the symbol of
/// the perpendicular neighbour lock it must also acquire.
#[derive(Clone, Copy, PartialEq, Eq, Structural, Debug)]
pub struct Bus {
    pub id: usize,
    pub direction: char,
    pub neighbour: char,
}

impl Bus {
    /// Build a bus from its id and its direction symbol (either case); the
    /// neighbour is the fixed rotation target of the direction.
    pub fn new(id: usize, direction: char) -> (b: Bus)
        requires
            spec_valid_direction_char(direction),
        ensures
            b.id == id,
            b.direction == direction,
            b.neighbour == spec_neighbour_char(direction),
    {
        let neighbour = match direction {
            'N' | 'n' => 'W',
            'S' | 's' => 'E',
            'E' | 'e' => 'N',
            _ => 'S',
        };
        Bus { id, direction, neighbour }
    }
}

/// Where a bus stands in its protocol.
#[derive(Clone, Copy, PartialEq, Eq, Structural, Debug)]
pub enum BusState {
    /// Spawned, not yet registered in the wait-for graph.
    Created,
    /// Registered; must now request and acquire its own approach lock.
    RequestingPrimary,
    /// Holds the approach lock; must now acquire the neighbour lock.
    HoldingPrimary,
    /// Holds both directional locks; must now acquire the crossing lock.
    HoldingBoth,
    /// Holds all three locks and is crossing.
    Crossing,
    /// Released everything and deregistered.
    Done,
}

/// What the caller must do to carry a bus into its next state.
#[derive(Clone, Copy, PartialEq, Eq, Structural, Debug)]
pub enum BusAction {
    /// Register the agent in the wait-for graph.
    Register,
    /// Record a request for the lock of this direction, block until the
    /// real lock is acquired, then confirm ownership in the graph.
    Acquire(Direction),
    /// Block until the shared crossing lock is acquired.
    AcquireCrossing,
    /// Cross, release every lock, and deregister from the graph.
    Finish,
}

/// The protocol table: the action that leaves state `s`, and the state it
/// leads to, for a bus whose approach is `primary`.
pub open spec fn spec_bus_step(s: BusState, primary: Direction) -> (Option<BusAction>, BusState) {
    match s {
        BusState::Created => (Some(BusAction::Register), BusState::RequestingPrimary),
        BusState::RequestingPrimary => (
            Some(BusAction::Acquire(primary)),
            BusState::HoldingPrimary,
        ),
        BusState::HoldingPrimary => (
            Some(BusAction::Acquire(spec_neighbour(primary))),
            BusState::HoldingBoth,
        ),
        BusState::HoldingBoth => (Some(BusAction::AcquireCrossing), BusState::Crossing),
        BusState::Crossing => (Some(BusAction::Finish), BusState::Done),
        BusState::Done => (None, BusState::Done),
    }
}

/// One protocol step: what to do next and the state that doing it reaches.
/// `Done` is absorbing and asks for nothing.
pub fn bus_step(s: BusState, primary: Direction) -> (r: (Option<BusAction>, BusState))
    ensures
        r == spec_bus_step(s, primary),
{
    match s {
        BusState::Created => (Some(BusAction::Register), BusState::RequestingPrimary),
        BusState::RequestingPrimary => (
            Some(BusAction::Acquire(primary)),
            BusState::HoldingPrimary,
        ),
        BusState::HoldingPrimary => (
            Some(BusAction::Acquire(primary.neighbour())),
            BusState::HoldingBoth,
        ),
        BusState::HoldingBoth => (Some(BusAction::AcquireCrossing), BusState::Crossing),
        BusState::Crossing => (Some(BusAction::Finish), BusState::Done),
        BusState::Done => (None, BusState::Done),
    }
}

/// The protocol terminates: from any state, five steps reach `Done`.
pub proof fn lemma_protocol_terminates(s: BusState, primary: Direction)
    ensures
        spec_bus_step(
            spec_bus_step(
                spec_bus_step(
                    spec_bus_step(spec_bus_step(s, primary).1, primary).1,
                    primary,
                ).1,
                primary,
            ).1,
            primary,
        ).1 == BusState::Done,
{
}

} // verus!
