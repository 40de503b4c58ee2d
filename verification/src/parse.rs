//! The map text format: one character per cell, one line per row, the last
//! line being the southernmost row.
//!
//! `parse` says what a text stands for. A text that is no map is rejected
//! for the first thing that is wrong with it: its shape is judged before its
//! characters are, and its characters are read from the bottom row up, each
//! row from west to east.

use crate::grid::{height, is_grid, tile_at, width, Grid};
use crate::text::{characters, lines, row_views, split_lines};
use crate::world::Tile;
use vstd::prelude::*;
use vstd::std_specs::convert::TryFromSpecImpl;

verus! {

/// Why a text is not a map.
#[derive(Clone, Copy, Debug, PartialEq, Eq, Structural)]
pub enum MapParseError {
    /// Row `row`, counted from the bottom, is not as long as the bottom row,
    /// and it is the lowest such row.
    MismatchedRows { row: usize },
    /// The text has no rows.
    NoRows,
    /// The rows have no columns.
    NoColumns,
    /// The character stands for no tile.
    InvalidCharacter(char),
}

/// The tile that a character of a map text stands for, if any.
pub open spec fn tile_of(c: char) -> Option<Tile> {
    if c == '.' {
        Some(Tile::EmptyFloor)
    } else if c == '#' {
        Some(Tile::Wall)
    } else if c == 'X' {
        Some(Tile::Lava)
    } else if c == 's' {
        Some(Tile::Switch)
    } else {
        None
    }
}

/// The character that stands for a tile in a map text.
pub open spec fn symbol_of(tile: Tile) -> char {
    match tile {
        Tile::EmptyFloor => '.',
        Tile::Wall => '#',
        Tile::Lava => 'X',
        Tile::Switch => 's',
    }
}

impl TryFromSpecImpl<char> for Tile {
    open spec fn obeys_try_from_spec() -> bool {
        true
    }

    open spec fn try_from_spec(v: char) -> Result<Tile, MapParseError> {
        match tile_of(v) {
            Some(tile) => Ok(tile),
            None => Err(MapParseError::InvalidCharacter(v)),
        }
    }
}

impl TryFrom<char> for Tile {
    type Error = MapParseError;

    /// Reads one character of a map text.
    fn try_from(character: char) -> (tile: Result<Tile, MapParseError>)
        ensures
            tile is Ok <==> tile_of(character) is Some,
            tile matches Ok(t) ==> tile_of(character) == Some(t),
            tile matches Err(e) ==> e == MapParseError::InvalidCharacter(character),
    {
        match character {
            '.' => Ok(Tile::EmptyFloor),
            '#' => Ok(Tile::Wall),
            'X' => Ok(Tile::Lava),
            's' => Ok(Tile::Switch),
            _ => Err(MapParseError::InvalidCharacter(character)),
        }
    }
}

impl Tile {
    /// The character that stands for this tile in a map text.
    pub fn symbol(self) -> (c: char)
        ensures
            c == symbol_of(self),
            tile_of(c) == Some(self),
    {
        match self {
            Tile::EmptyFloor => '.',
            Tile::Wall => '#',
            Tile::Lava => 'X',
            Tile::Switch => 's',
        }
    }
}

/// The rows of a map text from the bottom up: row 0 is the last line.
pub open spec fn rows_of(text: Seq<char>) -> Seq<Seq<char>> {
    lines(text).reverse()
}

/// Row `y` is not as long as the bottom row.
pub open spec fn is_ragged_at(rows: Seq<Seq<char>>, y: int) -> bool {
    0 <= y < rows.len() && rows[y].len() != rows[0].len()
}

/// Some row is not as long as the bottom row.
pub open spec fn is_ragged(rows: Seq<Seq<char>>) -> bool {
    exists|y: int| is_ragged_at(rows, y)
}

/// Row `y` is the lowest row that is not as long as the bottom row.
pub open spec fn is_first_ragged_at(rows: Seq<Seq<char>>, y: int) -> bool {
    is_ragged_at(rows, y) && forall|k: int| 0 <= k < y ==> !is_ragged_at(rows, k)
}

/// The lowest row that is not as long as the bottom row.
pub open spec fn first_ragged_row(rows: Seq<Seq<char>>) -> int
    recommends
        is_ragged(rows),
{
    choose|y: int| is_first_ragged_at(rows, y)
}

/// The character in column `x` of row `y` stands for no tile.
pub open spec fn is_invalid_at(rows: Seq<Seq<char>>, y: int, x: int) -> bool {
    0 <= y < rows.len() && 0 <= x < rows[y].len() && tile_of(rows[y][x]) is None
}

/// Some character stands for no tile.
pub open spec fn has_invalid(rows: Seq<Seq<char>>) -> bool {
    exists|y: int, x: int| is_invalid_at(rows, y, x)
}

/// Cell `(x0, y0)` is read before cell `(x, y)`: rows are read from the
/// bottom up, and each row from west to east.
pub open spec fn is_read_before(y0: int, x0: int, y: int, x: int) -> bool {
    y0 < y || (y0 == y && x0 < x)
}

/// The character in column `x` of row `y` is the first that stands for no
/// tile.
pub open spec fn is_first_invalid_at(rows: Seq<Seq<char>>, y: int, x: int) -> bool {
    is_invalid_at(rows, y, x) && forall|y0: int, x0: int|
        #![trigger is_invalid_at(rows, y0, x0)]
        is_read_before(y0, x0, y, x) ==> !is_invalid_at(rows, y0, x0)
}

/// The first character that stands for no tile.
pub open spec fn first_invalid(rows: Seq<Seq<char>>) -> char
    recommends
        has_invalid(rows),
{
    let (y, x) = choose|y: int, x: int| is_first_invalid_at(rows, y, x);
    rows[y][x]
}

/// The tiles that the characters of a row stand for.
pub open spec fn tiles_of_row(row: Seq<char>) -> Seq<Tile> {
    Seq::new(row.len(), |x: int| tile_of(row[x]).unwrap())
}

/// The tiles that the characters of the rows stand for, cell by cell.
pub open spec fn tiles_of(rows: Seq<Seq<char>>) -> Grid {
    Seq::new(rows.len(), |y: int| tiles_of_row(rows[y]))
}

/// The lines that stand for a grid, from its northernmost row to its
/// southernmost.
pub open spec fn drawn(grid: Grid) -> Seq<Seq<char>> {
    Seq::new(
        grid.len(),
        |i: int|
            Seq::new(
                grid[grid.len() - 1 - i].len(),
                |x: int| symbol_of(grid[grid.len() - 1 - i][x]),
            ),
    )
}

/// The text is a map: it has a row, its rows are equally long and not
/// empty, and each of its characters stands for a tile.
pub open spec fn is_map_text(text: Seq<char>) -> bool {
    let rows = rows_of(text);
    &&& rows.len() >= 1
    &&& rows[0].len() >= 1
    &&& !is_ragged(rows)
    &&& !has_invalid(rows)
}

/// What reading a map text gives: the tiles of its rows from the bottom up,
/// or the first reason for which it is not a map.
pub open spec fn parse(text: Seq<char>) -> Result<Grid, MapParseError> {
    let rows = rows_of(text);
    if is_ragged(rows) {
        Err(MapParseError::MismatchedRows { row: first_ragged_row(rows) as usize })
    } else if rows.len() == 0 {
        Err(MapParseError::NoRows)
    } else if rows[0].len() == 0 {
        Err(MapParseError::NoColumns)
    } else if has_invalid(rows) {
        Err(MapParseError::InvalidCharacter(first_invalid(rows)))
    } else {
        Ok(tiles_of(rows))
    }
}

/// Reading the text fails with this error.
pub open spec fn rejects(text: Seq<char>, error: MapParseError) -> bool {
    parse(text) is Err && parse(text)->Err_0 == error
}

/// Only one row can be the lowest ragged row.
proof fn lemma_first_ragged_is(rows: Seq<Seq<char>>, y: int)
    requires
        is_first_ragged_at(rows, y),
    ensures
        is_ragged(rows),
        first_ragged_row(rows) == y,
{
}

/// Only one cell can hold the first invalid character.
proof fn lemma_first_invalid_is(rows: Seq<Seq<char>>, y: int, x: int)
    requires
        is_first_invalid_at(rows, y, x),
    ensures
        has_invalid(rows),
        first_invalid(rows) == rows[y][x],
{
}

/// Below a ragged row there is a lowest ragged row.
proof fn lemma_ragged_has_first(rows: Seq<Seq<char>>, y: int)
    requires
        is_ragged_at(rows, y),
    ensures
        exists|k: int| is_first_ragged_at(rows, k),
    decreases y,
{
    if exists|k: int| 0 <= k < y && is_ragged_at(rows, k) {
        let k = choose|k: int| 0 <= k < y && is_ragged_at(rows, k);
        lemma_ragged_has_first(rows, k);
    } else {
        assert(is_first_ragged_at(rows, y));
    }
}

/// Before an invalid character there is a first invalid character.
proof fn lemma_invalid_has_first(rows: Seq<Seq<char>>, y: int, x: int)
    requires
        is_invalid_at(rows, y, x),
    ensures
        exists|y0: int, x0: int| is_first_invalid_at(rows, y0, x0),
    decreases y, x,
{
    if exists|y0: int, x0: int| is_read_before(y0, x0, y, x) && is_invalid_at(rows, y0, x0) {
        let (y0, x0) = choose|y0: int, x0: int|
            is_read_before(y0, x0, y, x) && is_invalid_at(rows, y0, x0);
        lemma_invalid_has_first(rows, y0, x0);
    } else {
        assert(is_first_invalid_at(rows, y, x));
    }
}

/// Among ragged rows there is a lowest, and `first_ragged_row` is that row.
pub proof fn lemma_first_ragged_row(rows: Seq<Seq<char>>)
    requires
        is_ragged(rows),
    ensures
        is_first_ragged_at(rows, first_ragged_row(rows)),
{
    let y = choose|y: int| is_ragged_at(rows, y);
    lemma_ragged_has_first(rows, y);
}

/// Among invalid characters there is a first, and `first_invalid` is that
/// character.
pub proof fn lemma_first_invalid(rows: Seq<Seq<char>>)
    requires
        has_invalid(rows),
    ensures
        tile_of(first_invalid(rows)) is None,
        exists|y: int, x: int|
            is_first_invalid_at(rows, y, x) && rows[y][x] == first_invalid(rows),
{
    let (y, x) = choose|y: int, x: int| is_invalid_at(rows, y, x);
    lemma_invalid_has_first(rows, y, x);
}

/// A text is a map exactly when nothing is wrong with it, and then reading
/// it gives a rectangle of at least one cell.
pub proof fn lemma_parse_accepts(text: Seq<char>)
    ensures
        parse(text) is Ok <==> is_map_text(text),
        parse(text) is Ok ==> parse(text)->Ok_0 == tiles_of(rows_of(text)) && is_grid(
            parse(text)->Ok_0,
        ),
{
    if parse(text) is Ok {
        let rows = rows_of(text);
        let grid = tiles_of(rows);
        assert forall|y: int| 0 <= y < grid.len() implies #[trigger] grid[y].len()
            == grid[0].len() by {
            assert(!is_ragged_at(rows, y));
        }
    }
}

/// A text is rejected for the first of these reasons that holds of it, each
/// with an error of its own: a row is not as long as the bottom row; there
/// is no row; the rows are empty; a character stands for no tile.
pub proof fn lemma_parse_rejects(text: Seq<char>)
    ensures
        is_ragged(rows_of(text)) ==> rejects(
            text,
            MapParseError::MismatchedRows { row: first_ragged_row(rows_of(text)) as usize },
        ) && is_first_ragged_at(rows_of(text), first_ragged_row(rows_of(text))),
        rows_of(text).len() == 0 ==> rejects(text, MapParseError::NoRows),
        !is_ragged(rows_of(text)) && rows_of(text).len() > 0 && rows_of(text)[0].len() == 0
            ==> rejects(text, MapParseError::NoColumns),
        has_invalid(rows_of(text)) ==> parse(text) is Err && tile_of(
            first_invalid(rows_of(text)),
        ) is None,
        has_invalid(rows_of(text)) && !is_ragged(rows_of(text)) && rows_of(text)[0].len() > 0
            ==> rejects(text, MapParseError::InvalidCharacter(first_invalid(rows_of(text)))),
{
    let rows = rows_of(text);
    if is_ragged(rows) {
        lemma_first_ragged_row(rows);
    }
    if has_invalid(rows) {
        lemma_first_invalid(rows);
    }
}

/// What each error says of the text that it rejects.
pub proof fn lemma_parse_error(text: Seq<char>)
    requires
        parse(text) is Err,
    ensures
        match parse(text)->Err_0 {
            MapParseError::MismatchedRows { row } => is_first_ragged_at(
                rows_of(text),
                first_ragged_row(rows_of(text)),
            ) && row == first_ragged_row(rows_of(text)) as usize,
            MapParseError::NoRows => rows_of(text).len() == 0,
            MapParseError::NoColumns => !is_ragged(rows_of(text)) && rows_of(text).len() > 0
                && rows_of(text)[0].len() == 0,
            MapParseError::InvalidCharacter(c) => !is_ragged(rows_of(text)) && rows_of(text).len()
                > 0 && rows_of(text)[0].len() > 0 && tile_of(c) is None && exists|y: int, x: int|
                is_first_invalid_at(rows_of(text), y, x) && rows_of(text)[y][x] == c,
        },
{
    lemma_parse_rejects(text);
    if has_invalid(rows_of(text)) {
        lemma_first_invalid(rows_of(text));
    }
}

/// A text of `rows` lines of `columns` characters each, every one of which
/// stands for a tile, is a map with as many columns and rows.
pub proof fn lemma_parse_size(text: Seq<char>, columns: nat, rows: nat)
    requires
        columns >= 1,
        rows >= 1,
        lines(text).len() == rows,
        forall|i: int| 0 <= i < rows ==> #[trigger] lines(text)[i].len() == columns,
        forall|i: int, x: int|
            0 <= i < rows && 0 <= x < columns ==> tile_of(#[trigger] lines(text)[i][x]) is Some,
    ensures
        parse(text) is Ok,
        is_grid(parse(text)->Ok_0),
        width(parse(text)->Ok_0) == columns,
        height(parse(text)->Ok_0) == rows,
{
    lemma_parse_accepts(text);
}

/// The bottom row of a map is its text's last line: the tile at `(x, 0)` is
/// the one that the character in place `x` of that line stands for.
pub proof fn lemma_bottom_row(text: Seq<char>, x: int)
    requires
        parse(text) is Ok,
        0 <= x < width(parse(text)->Ok_0),
    ensures
        x < lines(text).last().len(),
        tile_at(parse(text)->Ok_0, x, 0) == tile_of(lines(text).last()[x]),
{
    let rows = rows_of(text);
    assert(!is_invalid_at(rows, 0, x));
}

/// Reading a text and drawing the map again gives the lines of the text.
pub proof fn lemma_drawn_is_text(text: Seq<char>)
    requires
        parse(text) is Ok,
    ensures
        drawn(parse(text)->Ok_0) == lines(text),
{
    let rows = rows_of(text);
    let grid = parse(text)->Ok_0;
    let again = drawn(grid);
    assert forall|i: int| 0 <= i < again.len() implies again[i] == lines(text)[i] by {
        let y = grid.len() - 1 - i;
        assert forall|x: int| 0 <= x < again[i].len() implies again[i][x] == lines(text)[i][x] by {
            assert(!is_invalid_at(rows, y, x));
        }
    }
}

/// Drawing a grid and reading the drawing gives the grid again.
pub proof fn lemma_drawing_reads_back(grid: Grid)
    ensures
        tiles_of(drawn(grid).reverse()) == grid,
{
    let back = tiles_of(drawn(grid).reverse());
    assert forall|y: int| 0 <= y < grid.len() implies back[y] == grid[y] by {}
}

/// The rows of a text, from the bottom up.
fn read_rows(text: &str) -> (rows: Vec<Vec<char>>)
    ensures
        row_views(rows@) == rows_of(text@),
{
    let chars = characters(text);
    let mut top_down = split_lines(&chars);
    let ghost all = top_down@;
    let mut rows: Vec<Vec<char>> = Vec::new();
    while top_down.len() > 0
        invariant
            all.len() == top_down.len() + rows.len(),
            forall|i: int| 0 <= i < top_down.len() ==> top_down[i] == all[i],
            forall|y: int| 0 <= y < rows.len() ==> rows[y] == #[trigger] all[all.len() - 1 - y],
        decreases top_down.len(),
    {
        let line = top_down.pop().unwrap();
        rows.push(line);
    }
    rows
}

/// The lowest row that is not as long as the bottom row, if there is one.
fn find_ragged_row(rows: &Vec<Vec<char>>) -> (found: Option<usize>)
    ensures
        match found {
            Some(y) => is_first_ragged_at(row_views(rows@), y as int),
            None => !is_ragged(row_views(rows@)),
        },
{
    let mut y: usize = 1;
    while y < rows.len()
        invariant
            1 <= y,
            forall|k: int| 0 <= k < y ==> !is_ragged_at(row_views(rows@), k),
        decreases rows.len() - y,
    {
        if rows[y].len() != rows[0].len() {
            return Some(y);
        }
        y += 1;
    }
    None
}

/// The tiles of one row, or the place of its first invalid character.
fn read_row(row: &Vec<char>) -> (outcome: Result<Vec<Tile>, usize>)
    ensures
        match outcome {
            Ok(tiles) => tiles@ == tiles_of_row(row@) && forall|i: int|
                0 <= i < row.len() ==> tile_of(#[trigger] row[i]) is Some,
            Err(x) => x < row.len() && tile_of(row[x as int]) is None && forall|i: int|
                0 <= i < x ==> tile_of(#[trigger] row[i]) is Some,
        },
{
    let mut tiles: Vec<Tile> = Vec::new();
    let mut x: usize = 0;
    while x < row.len()
        invariant
            x <= row.len(),
            tiles.len() == x,
            forall|i: int| 0 <= i < x ==> tile_of(#[trigger] row[i]) == Some(tiles[i]),
        decreases row.len() - x,
    {
        match Tile::try_from(row[x]) {
            Ok(tile) => tiles.push(tile),
            Err(_) => {
                return Err(x);
            },
        }
        x += 1;
    }
    Ok(tiles)
}

/// Reads a map text: the tiles of its rows, from the bottom up.
pub(crate) fn parse_tiles(text: &str) -> (outcome: Result<Vec<Vec<Tile>>, MapParseError>)
    ensures
        outcome is Ok <==> is_map_text(text@),
        outcome matches Ok(tiles) ==> parse(text@) is Ok && parse(text@)->Ok_0 == row_views(tiles@),
        outcome matches Err(error) ==> rejects(text@, error),
{
    let rows = read_rows(text);
    let ghost shown = rows_of(text@);
    match find_ragged_row(&rows) {
        Some(row) => {
            proof {
                lemma_first_ragged_is(shown, row as int);
            }
            return Err(MapParseError::MismatchedRows { row });
        },
        None => {},
    }
    if rows.len() == 0 {
        return Err(MapParseError::NoRows);
    }
    if rows[0].len() == 0 {
        return Err(MapParseError::NoColumns);
    }
    let mut tiles: Vec<Vec<Tile>> = Vec::new();
    let mut y: usize = 0;
    while y < rows.len()
        invariant
            y <= rows.len(),
            shown == rows_of(text@),
            shown.len() == rows.len(),
            forall|k: int| 0 <= k < rows.len() ==> #[trigger] shown[k] == rows[k]@,
            !is_ragged(shown),
            shown[0].len() > 0,
            tiles.len() == y,
            forall|k: int| 0 <= k < y ==> #[trigger] tiles[k]@ == tiles_of_row(shown[k]),
            forall|y0: int, x0: int|
                #![trigger is_invalid_at(shown, y0, x0)]
                y0 < y ==> !is_invalid_at(shown, y0, x0),
        decreases rows.len() - y,
    {
        match read_row(&rows[y]) {
            Ok(row) => tiles.push(row),
            Err(x) => {
                proof {
                    lemma_first_invalid_is(shown, y as int, x as int);
                }
                return Err(MapParseError::InvalidCharacter(rows[y][x]));
            },
        }
        y += 1;
    }
    Ok(tiles)
}

} // verus!
