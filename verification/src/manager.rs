//! The coordinator's per-iteration decision.
//!
//! Each tick the coordinator draws a random value and compares it with the
//! configured checking probability; that weighted coin, together with how
//! many directions are still unspawned, decides the one action of the tick.
//! The caller draws the coin, performs the action, and loops.

use vstd::prelude::*;

verus! {

/// The one action a coordinator iteration performs.
#[derive(Clone, Copy, PartialEq, Eq, Structural, Debug)]
pub enum ManagerAction {
    /// Poll the wait-for graph; a reported cycle aborts the run.
    CheckDeadlock,
    /// Spawn the agent for the next unspawned direction.
    SpawnNext,
    /// Nothing left to spawn: drain, re-checking for deadlock until every
    /// spawned agent has finished.
    Drain,
}

/// The decision table: check when the coin says so; otherwise spawn while
/// directions remain; otherwise drain.
pub open spec fn spec_manager_step(check_coin: bool, remaining: nat) -> ManagerAction {
    if check_coin {
        ManagerAction::CheckDeadlock
    } else if remaining > 0 {
        ManagerAction::SpawnNext
    } else {
        ManagerAction::Drain
    }
}

/// Decide the action of one coordinator iteration.  `check_coin` is true
/// when the drawn random value fell below the checking probability;
/// `remaining` is the number of directions not yet spawned.
pub fn manager_step(check_coin: bool, remaining: usize) -> (r: ManagerAction)
    ensures
        r == spec_manager_step(check_coin, remaining as nat),
{
    if check_coin {
        ManagerAction::CheckDeadlock
    } else if remaining > 0 {
        ManagerAction::SpawnNext
    } else {
        ManagerAction::Drain
    }
}

} // verus!
