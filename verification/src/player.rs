//! What the game asks of an agent: to come into being, and to choose one
//! action each time it is shown the world.

use crate::world::{Direction, World};
use vstd::prelude::*;

verus! {

/// What an agent can decide to do on its turn.
#[derive(Clone, Copy, Debug, PartialEq, Eq, Structural)]
#[non_exhaustive]
pub enum Action {
    /// Go one cell in the given direction.
    Move(Direction),
}

/// An agent. The game makes one with `spawn` when a match begins and then
/// calls `act` once per turn; what `act` returns is all that the agent does
/// to the match, and its own state is all that it can change.
pub trait Player: Sized {
    /// The agent as it is before its first turn.
    spec fn initial() -> Self;

    /// Makes the agent. Every agent of one kind starts out the same.
    fn spawn() -> (agent: Self)
        ensures
            agent == Self::initial(),
    ;

    /// Looks at the world and chooses this turn's action.
    fn act(&mut self, world: &impl World) -> Action;
}

} // verus!
