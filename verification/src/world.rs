//! The vocabulary shared by the map and the agents: tiles, directions and
//! relative offsets, and the sensing capability that an agent is given.

use vstd::prelude::*;

verus! {

/// What a single cell of the map holds.
#[derive(Clone, Copy, Debug, PartialEq, Eq, Structural)]
pub enum Tile {
    /// Open ground.
    EmptyFloor,
    /// Blocks movement and sight; also what lies beyond the edge of the map.
    Wall,
    /// Can be entered, at the cost of the agent's life.
    Lava,
    /// Can be entered, and sets off an effect in the surrounding game.
    Switch,
}

/// The compass directions in which an agent can look and move: the four
/// straight ones and the four diagonals, each with one offset of its own.
#[derive(Clone, Copy, Debug, PartialEq, Eq, Structural)]
pub enum Direction {
    North,
    NorthEast,
    East,
    SouthEast,
    South,
    SouthWest,
    West,
    NorthWest,
}

/// A relative offset between two cells: `(dx, dy)`, east and north positive.
#[derive(Clone, Copy, Debug, PartialEq, Eq, Structural)]
pub struct Distance(pub i32, pub i32);

impl Direction {
    /// How far one step in this direction leads to the east.
    pub open spec fn dx(self) -> int {
        match self {
            Direction::NorthEast | Direction::East | Direction::SouthEast => 1,
            Direction::NorthWest | Direction::West | Direction::SouthWest => -1,
            Direction::North | Direction::South => 0,
        }
    }

    /// How far one step in this direction leads to the north.
    pub open spec fn dy(self) -> int {
        match self {
            Direction::NorthWest | Direction::North | Direction::NorthEast => 1,
            Direction::SouthWest | Direction::South | Direction::SouthEast => -1,
            Direction::West | Direction::East => 0,
        }
    }

    /// The offset of one step in this direction.
    pub open spec fn spec_delta(self) -> Distance {
        Distance(self.dx() as i32, self.dy() as i32)
    }

    /// The direction that leads back.
    pub open spec fn spec_opposite(self) -> Direction {
        match self {
            Direction::North => Direction::South,
            Direction::NorthEast => Direction::SouthWest,
            Direction::East => Direction::West,
            Direction::SouthEast => Direction::NorthWest,
            Direction::South => Direction::North,
            Direction::SouthWest => Direction::NorthEast,
            Direction::West => Direction::East,
            Direction::NorthWest => Direction::SouthEast,
        }
    }

    /// The offset of one step in this direction.
    #[verifier::when_used_as_spec(spec_delta)]
    pub fn delta(self) -> (offset: Distance)
        ensures
            offset == self.spec_delta(),
            offset.0 == self.dx(),
            offset.1 == self.dy(),
    {
        match self {
            Direction::North => Distance(0, 1),
            Direction::NorthEast => Distance(1, 1),
            Direction::East => Distance(1, 0),
            Direction::SouthEast => Distance(1, -1),
            Direction::South => Distance(0, -1),
            Direction::SouthWest => Distance(-1, -1),
            Direction::West => Distance(-1, 0),
            Direction::NorthWest => Distance(-1, 1),
        }
    }

    /// The direction that leads back.
    #[verifier::when_used_as_spec(spec_opposite)]
    pub fn opposite(self) -> (back: Direction)
        ensures
            back == self.spec_opposite(),
    {
        match self {
            Direction::North => Direction::South,
            Direction::NorthEast => Direction::SouthWest,
            Direction::East => Direction::West,
            Direction::SouthEast => Direction::NorthWest,
            Direction::South => Direction::North,
            Direction::SouthWest => Direction::NorthEast,
            Direction::West => Direction::East,
            Direction::NorthWest => Direction::SouthEast,
        }
    }

    /// The diagonal between a vertical and a horizontal direction.
    pub open spec fn between(vertical: Direction, horizontal: Direction) -> Direction
        recommends
            vertical == Direction::North || vertical == Direction::South,
            horizontal == Direction::East || horizontal == Direction::West,
    {
        match (vertical, horizontal) {
            (Direction::North, Direction::East) => Direction::NorthEast,
            (Direction::North, _) => Direction::NorthWest,
            (_, Direction::East) => Direction::SouthEast,
            _ => Direction::SouthWest,
        }
    }

    /// Every step leads somewhere else.
    pub proof fn lemma_delta_is_not_zero(self)
        ensures
            self.dx() != 0 || self.dy() != 0,
    {
    }

    /// A step back undoes a step: the two offsets are each other's negation,
    /// and going back twice is not going back at all.
    pub proof fn lemma_opposite_negates(self)
        ensures
            self.opposite().dx() == -self.dx(),
            self.opposite().dy() == -self.dy(),
            self.opposite().opposite() == self,
    {
    }

    /// A diagonal step is the sum of the two straight steps in its name.
    pub proof fn lemma_diagonal_is_sum(vertical: Direction, horizontal: Direction)
        requires
            vertical == Direction::North || vertical == Direction::South,
            horizontal == Direction::East || horizontal == Direction::West,
        ensures
            Direction::between(vertical, horizontal).dx() == vertical.dx() + horizontal.dx(),
            Direction::between(vertical, horizontal).dy() == vertical.dy() + horizontal.dy(),
    {
    }
}

/// What an agent is given to look at the world: it can ask for the tile one
/// step away from where it stands, and change nothing.
pub trait World {
    /// The tile that lies one step away in the given direction.
    spec fn tile_toward(&self, direction: Direction) -> Tile;

    /// Looks one step in the given direction.
    fn inspect(&self, direction: Direction) -> (tile: Tile)
        ensures
            tile == self.tile_toward(direction),
    ;
}

} // verus!
