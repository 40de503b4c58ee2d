//! The plan of a map as contracts speak of it: a sequence of rows of tiles.

use crate::location::Location;
use crate::world::{Direction, Distance, Tile};
use vstd::prelude::*;

verus! {

/// Rows of tiles: `grid[y][x]` is the tile in column `x` of row `y`, and
/// row 0 is the southernmost.
pub type Grid = Seq<Seq<Tile>>;

/// A grid is a rectangle of at least one cell.
pub open spec fn is_grid(grid: Grid) -> bool {
    &&& grid.len() >= 1
    &&& grid[0].len() >= 1
    &&& forall|y: int| 0 <= y < grid.len() ==> #[trigger] grid[y].len() == grid[0].len()
}

/// The number of columns of a grid.
pub open spec fn width(grid: Grid) -> nat {
    grid[0].len()
}

/// The number of rows of a grid.
pub open spec fn height(grid: Grid) -> nat {
    grid.len()
}

/// The tile at `(x, y)`, if that cell lies on the grid.
pub open spec fn tile_at(grid: Grid, x: int, y: int) -> Option<Tile> {
    if 0 <= x < width(grid) && 0 <= y < height(grid) {
        Some(grid[y][x])
    } else {
        None
    }
}

/// The tile at `(x, y)` as an agent sees it: all that lies off the grid is
/// wall.
pub open spec fn tile_or_wall(grid: Grid, x: int, y: int) -> Tile {
    match tile_at(grid, x, y) {
        Some(tile) => tile,
        None => Tile::Wall,
    }
}

/// The neighbour of `(x, y)` in one direction, with the offset that leads
/// to it: one entry if that cell lies on the grid, none if it does not.
pub open spec fn neighbour_toward(grid: Grid, x: int, y: int, direction: Direction) -> Seq<
    (Tile, Distance),
> {
    match tile_at(grid, x + direction.dx(), y + direction.dy()) {
        Some(tile) => seq![(tile, direction.delta())],
        None => Seq::empty(),
    }
}

/// The neighbours of `(x, y)` to the west, east, north and south, in that
/// order, without those that lie off the grid.
pub open spec fn surrounding(grid: Grid, x: int, y: int) -> Seq<(Tile, Distance)> {
    neighbour_toward(grid, x, y, Direction::West)
        + neighbour_toward(grid, x, y, Direction::East)
        + neighbour_toward(grid, x, y, Direction::North)
        + neighbour_toward(grid, x, y, Direction::South)
}

/// From a cell of a grid, a step in any direction stays within what a
/// coordinate can hold, as long as the size of the grid does.
pub proof fn lemma_step_fits_on_grid(grid: Grid, location: Location, direction: Direction)
    requires
        tile_at(grid, location.0 as int, location.1 as int) is Some,
        width(grid) <= usize::MAX,
        height(grid) <= usize::MAX,
    ensures
        location.fits(direction),
{
}

/// What an agent sees one step away is the tile of the neighbouring cell,
/// and a wall where there is no such cell or it lies off the grid.
pub proof fn lemma_sight_is_neighbour(grid: Grid, location: Location, direction: Direction)
    requires
        location.fits(direction),
    ensures
        tile_or_wall(grid, location.0 + direction.dx(), location.1 + direction.dy()) == (
        match location.step(direction) {
            Some(cell) => tile_or_wall(grid, cell.0 as int, cell.1 as int),
            None => Tile::Wall,
        }),
{
}

} // verus!
