//! The map: a rectangle of tiles that is read once from a text and never
//! changes afterwards.

use crate::grid::{height, is_grid, neighbour_toward, surrounding, tile_at, tile_or_wall, width, Grid};
use crate::location::Location;
use crate::parse::{is_map_text, lemma_parse_accepts, parse, parse_tiles, MapParseError};
use crate::text::row_views;
use crate::world::{Direction, Distance, Tile, World};
use vstd::prelude::*;

verus! {

/// The outcome of reading a map, with the map seen as its grid.
pub open spec fn as_grid(outcome: Result<GameMap, MapParseError>) -> Result<Grid, MapParseError> {
    match outcome {
        Ok(map) => Ok(map@),
        Err(error) => Err(error),
    }
}

/// A rectangular map of tiles.
#[derive(Debug)]
pub struct GameMap {
    tiles: Vec<Vec<Tile>>,
}

impl View for GameMap {
    type V = Grid;

    closed spec fn view(&self) -> Grid {
        row_views(self.tiles@)
    }
}

impl GameMap {
    /// Every map is a grid.
    #[verifier::type_invariant]
    spec fn well_formed(self) -> bool {
        is_grid(self@)
    }

    /// The number of columns and of rows.
    pub fn size(&self) -> (size: (usize, usize))
        ensures
            is_grid(self@),
            size.0 == width(self@),
            size.1 == height(self@),
    {
        proof {
            use_type_invariant(self);
        }
        (self.tiles[0].len(), self.tiles.len())
    }

    /// The tile at a location, if the location lies on the map.
    pub fn tile(&self, location: Location) -> (tile: Option<Tile>)
        ensures
            tile == tile_at(self@, location.0 as int, location.1 as int),
    {
        proof {
            use_type_invariant(self);
        }
        if location.1 < self.tiles.len() {
            let row = &self.tiles[location.1];
            assert(row@ == self@[location.1 as int]);
            if location.0 < row.len() {
                Some(row[location.0])
            } else {
                None
            }
        } else {
            None
        }
    }

    /// The tile one step away from a location, if that cell lies on the map.
    fn neighbour(&self, location: Location, direction: Direction) -> (tile: Option<Tile>)
        ensures
            tile == tile_at(self@, location.0 + direction.dx(), location.1 + direction.dy()),
    {
        let delta = direction.delta();
        let (width, height) = self.size();
        if (delta.0 > 0 && location.0 >= width) || (delta.1 > 0 && location.1 >= height) {
            None
        } else {
            match location + direction {
                Some(cell) => self.tile(cell),
                None => None,
            }
        }
    }

    /// What an agent at `location` sees one step away in `direction`: the
    /// tile there, or a wall where the map ends.
    pub fn inspect_from(&self, location: Location, direction: Direction) -> (tile: Tile)
        ensures
            tile == tile_or_wall(self@, location.0 + direction.dx(), location.1 + direction.dy()),
    {
        match self.neighbour(location, direction) {
            Some(tile) => tile,
            None => Tile::Wall,
        }
    }

    /// Adds the neighbour in one direction to those found, if it lies on
    /// the map.
    fn push_neighbour(
        &self,
        found: &mut Vec<(Tile, Distance)>,
        location: Location,
        direction: Direction,
    )
        ensures
            final(found)@ == old(found)@ + neighbour_toward(
                self@,
                location.0 as int,
                location.1 as int,
                direction,
            ),
    {
        match self.neighbour(location, direction) {
            Some(tile) => {
                found.push((tile, direction.delta()));
            },
            None => {},
        }
    }

    /// The tiles next to a location, each with the offset that leads to it:
    /// west, east, north, south, leaving out what lies off the map. Only
    /// these four neighbours are looked at, not the diagonal ones.
    pub fn tiles_surrounding_location(&self, location: Location) -> (found: Vec<(Tile, Distance)>)
        ensures
            found@ == surrounding(self@, location.0 as int, location.1 as int),
    {
        let mut found: Vec<(Tile, Distance)> = Vec::new();
        self.push_neighbour(&mut found, location, Direction::West);
        self.push_neighbour(&mut found, location, Direction::East);
        self.push_neighbour(&mut found, location, Direction::North);
        self.push_neighbour(&mut found, location, Direction::South);
        found
    }

    /// The world as an agent at `location` can sense it.
    pub fn world_at(&self, location: Location) -> (world: WorldAt<'_>)
        ensures
            world.map == self,
            world.location == location,
    {
        WorldAt { map: self, location }
    }
}

impl core::str::FromStr for GameMap {
    type Err = MapParseError;

    /// Reads a map from its text. The text is a map exactly when `parse`
    /// says so, and the error is the one that `parse` names.
    fn from_str(text: &str) -> (outcome: Result<GameMap, MapParseError>)
        ensures
            outcome is Ok <==> is_map_text(text@),
            as_grid(outcome) == parse(text@),
            outcome matches Ok(map) ==> is_grid(map@),
    {
        match parse_tiles(text) {
            Ok(tiles) => {
                proof {
                    lemma_parse_accepts(text@);
                }
                Ok(GameMap { tiles })
            },
            Err(error) => Err(error),
        }
    }
}

/// A map as seen from one of its locations: what the game hands to the
/// agent that stands there.
pub struct WorldAt<'a> {
    pub map: &'a GameMap,
    pub location: Location,
}

impl<'a> World for WorldAt<'a> {
    open spec fn tile_toward(&self, direction: Direction) -> Tile {
        tile_or_wall(
            self.map@,
            self.location.0 + direction.dx(),
            self.location.1 + direction.dy(),
        )
    }

    fn inspect(&self, direction: Direction) -> (tile: Tile) {
        self.map.inspect_from(self.location, direction)
    }
}

} // verus!
