//! An agent that heads north, or nearly north, whatever lies ahead, and
//! thinks again only when it is about to step into lava.

use crate::player::{Action, Player};
use crate::world::{Direction, Tile, World};
use vstd::prelude::*;

verus! {

/// The direction that the fool favours on a turn: it takes north,
/// north-west and north-east in rotation.
pub open spec fn favoured(turn: int) -> Direction {
    if turn % 3 == 0 {
        Direction::North
    } else if turn % 3 == 1 {
        Direction::NorthWest
    } else {
        Direction::NorthEast
    }
}

/// The direction that the fool takes on a turn: the favoured one, unless it
/// sees lava there, in which case it takes the next in the rotation without
/// looking.
pub open spec fn chosen<W: World>(turn: int, world: &W) -> Direction {
    if world.tile_toward(favoured(turn)) == Tile::Lava {
        favoured(turn + 1)
    } else {
        favoured(turn)
    }
}

/// The fool steps into lava only if it sees lava ahead and lava lies in the
/// next direction of its rotation too.
pub proof fn lemma_fool_meets_lava<W: World>(turn: int, world: &W)
    ensures
        world.tile_toward(chosen(turn, world)) == Tile::Lava <==> world.tile_toward(favoured(turn))
            == Tile::Lava && world.tile_toward(favoured(turn + 1)) == Tile::Lava,
{
}

/// On its first turn, a fool with lava to the north and none to the
/// north-west goes north-west, and so not into lava.
pub proof fn lemma_first_move_avoids_lava<W: World>(world: &W)
    requires
        world.tile_toward(Direction::North) == Tile::Lava,
        world.tile_toward(Direction::NorthWest) != Tile::Lava,
    ensures
        chosen(0, world) == Direction::NorthWest,
        world.tile_toward(chosen(0, world)) != Tile::Lava,
{
}

/// The fool, which remembers only where it is in its rotation.
pub struct Fool {
    choice: usize,
}

impl Fool {
    /// The fool is always at one of the three places of its rotation.
    #[verifier::type_invariant]
    spec fn well_formed(self) -> bool {
        self.choice < 3
    }

    /// How many turns into its rotation the fool is: 0, 1 or 2.
    pub closed spec fn turn(self) -> int {
        self.choice as int
    }

    /// The direction that the fool favours at a place in its rotation.
    fn favourite(choice: usize) -> (direction: Direction)
        requires
            choice < 3,
        ensures
            direction == favoured(choice as int),
    {
        if choice == 0 {
            Direction::North
        } else if choice == 1 {
            Direction::NorthWest
        } else {
            Direction::NorthEast
        }
    }
}

impl Player for Fool {
    closed spec fn initial() -> Fool {
        Fool { choice: 0 }
    }

    /// A fool at the start of its rotation.
    fn spawn() -> (fool: Fool)
        ensures
            fool.turn() == 0,
    {
        Fool { choice: 0 }
    }

    /// Takes the direction that `chosen` names for this turn, and moves on
    /// in the rotation.
    fn act(&mut self, world: &impl World) -> (action: Action)
        ensures
            action == Action::Move(chosen(old(self).turn(), world)),
            final(self).turn() == (old(self).turn() + 1) % 3,
    {
        proof {
            use_type_invariant(&*self);
        }
        let first = Fool::favourite(self.choice);
        self.choice = (self.choice + 1) % 3;
        if world.inspect(first) == Tile::Lava {
            Action::Move(Fool::favourite(self.choice))
        } else {
            Action::Move(first)
        }
    }
}

} // verus!
