use bomber_game::{Direction, Distance, Location, MapParseError, Tile};

const DIRECTIONS: [Direction; 8] = [
    Direction::North,
    Direction::NorthEast,
    Direction::East,
    Direction::SouthEast,
    Direction::South,
    Direction::SouthWest,
    Direction::West,
    Direction::NorthWest,
];

#[test]
fn a_step_leads_to_the_neighbour() {
    let here = Location(5, 7);
    assert_eq!(here + Direction::North, Some(Location(5, 8)));
    assert_eq!(here + Direction::NorthEast, Some(Location(6, 8)));
    assert_eq!(here + Direction::East, Some(Location(6, 7)));
    assert_eq!(here + Direction::SouthEast, Some(Location(6, 6)));
    assert_eq!(here + Direction::South, Some(Location(5, 6)));
    assert_eq!(here + Direction::SouthWest, Some(Location(4, 6)));
    assert_eq!(here + Direction::West, Some(Location(4, 7)));
    assert_eq!(here + Direction::NorthWest, Some(Location(4, 8)));
}

#[test]
fn no_step_leads_below_zero() {
    assert_eq!(Location(0, 3) + Direction::West, None);
    assert_eq!(Location(0, 3) + Direction::NorthWest, None);
    assert_eq!(Location(0, 3) + Direction::SouthWest, None);
    assert_eq!(Location(3, 0) + Direction::South, None);
    assert_eq!(Location(3, 0) + Direction::SouthEast, None);
    assert_eq!(Location(3, 0) + Direction::SouthWest, None);
    assert_eq!(Location(0, 0) + Direction::SouthWest, None);
    assert_eq!(Location(0, 0) + Direction::NorthWest, None);
    assert_eq!(Location(0, 0) + Direction::SouthEast, None);
}

#[test]
fn a_step_is_missing_only_below_zero() {
    for x in 0..3usize {
        for y in 0..3usize {
            for direction in DIRECTIONS {
                let Distance(dx, dy) = direction.delta();
                let negative = (x as i64 + dx as i64) < 0 || (y as i64 + dy as i64) < 0;
                let neighbour = Location(x, y) + direction;
                assert_eq!(neighbour.is_none(), negative);
                if let Some(Location(nx, ny)) = neighbour {
                    assert_eq!(nx as i64, x as i64 + dx as i64);
                    assert_eq!(ny as i64, y as i64 + dy as i64);
                }
            }
        }
    }
    assert_eq!(Location(0, 0) + Direction::North, Some(Location(0, 1)));
    assert_eq!(Location(0, 0) + Direction::East, Some(Location(1, 0)));
    assert_eq!(Location(0, 0) + Direction::NorthEast, Some(Location(1, 1)));
    assert_eq!(
        Location(usize::MAX, usize::MAX) + Direction::SouthWest,
        Some(Location(usize::MAX - 1, usize::MAX - 1))
    );
}

#[test]
fn an_offset_moves_a_location() {
    assert_eq!(Location(5, 7) + (2, 3), Location(7, 10));
    assert_eq!(Location(5, 7) + (-2, -3), Location(3, 4));
    assert_eq!(Location(5, 7) + (0, 0), Location(5, 7));
    assert_eq!(Location(5, 7) + (-5, -7), Location(0, 0));
    assert_eq!(Location(5, 7) + (i32::MAX, 1), Location(5 + i32::MAX as usize, 8));
}

#[test]
fn an_offset_stops_at_zero() {
    assert_eq!(Location(0, 0) + (-1, 0), Location(0, 0));
    assert_eq!(Location(0, 0) + (0, -1), Location(0, 0));
    assert_eq!(Location(5, 7) + (-6, 1), Location(0, 8));
    assert_eq!(Location(5, 7) + (1, -8), Location(6, 0));
    assert_eq!(Location(5, 7) + (i32::MIN, i32::MIN), Location(0, 0));
}

#[test]
fn an_offset_stops_at_the_largest_coordinate() {
    assert_eq!(Location(usize::MAX, 0) + (1, 0), Location(usize::MAX, 0));
    assert_eq!(Location(usize::MAX - 1, usize::MAX) + (5, i32::MAX), Location(usize::MAX, usize::MAX));
    assert_eq!(Location(usize::MAX, usize::MAX) + (-1, -2), Location(usize::MAX - 1, usize::MAX - 2));
}

#[test]
fn the_difference_of_two_locations_is_signed() {
    assert_eq!(Location(5, 7) - Location(2, 9), Distance(3, -2));
    assert_eq!(Location(2, 9) - Location(5, 7), Distance(-3, 2));
    assert_eq!(Location(4, 4) - Location(4, 4), Distance(0, 0));
    assert_eq!(Location(i32::MAX as usize, 0) - Location(0, i32::MAX as usize), Distance(i32::MAX, -i32::MAX));
    assert_eq!(Location(0, 10) - Location(1 << 31, 10), Distance(i32::MIN, 0));
    assert_eq!(Location(usize::MAX, usize::MAX - 1) - Location(usize::MAX - 1, usize::MAX), Distance(1, -1));
}

#[test]
fn a_step_is_as_long_as_its_direction() {
    let here = Location(3, 3);
    for direction in DIRECTIONS {
        let there = (here + direction).unwrap();
        assert_eq!(there - here, direction.delta());
    }
}

#[test]
fn opposite_steps_have_negated_offsets() {
    let here = Location(3, 3);
    let north = (here + Direction::North).unwrap() - here;
    let south = (here + Direction::South).unwrap() - here;
    assert_eq!(north, Distance(0, 1));
    assert_eq!(south, Distance(0, -1));
    for direction in DIRECTIONS {
        let there = (here + direction).unwrap() - here;
        let back = (here + direction.opposite()).unwrap() - here;
        assert_eq!(there.0, -back.0);
        assert_eq!(there.1, -back.1);
    }
}

#[test]
fn each_direction_has_its_offset() {
    assert_eq!(Direction::North.delta(), Distance(0, 1));
    assert_eq!(Direction::NorthEast.delta(), Distance(1, 1));
    assert_eq!(Direction::East.delta(), Distance(1, 0));
    assert_eq!(Direction::SouthEast.delta(), Distance(1, -1));
    assert_eq!(Direction::South.delta(), Distance(0, -1));
    assert_eq!(Direction::SouthWest.delta(), Distance(-1, -1));
    assert_eq!(Direction::West.delta(), Distance(-1, 0));
    assert_eq!(Direction::NorthWest.delta(), Distance(-1, 1));
}

#[test]
fn no_direction_stays_in_place() {
    for direction in DIRECTIONS {
        assert_ne!(direction.delta(), Distance(0, 0));
    }
}

#[test]
fn each_direction_has_its_opposite() {
    assert_eq!(Direction::North.opposite(), Direction::South);
    assert_eq!(Direction::NorthEast.opposite(), Direction::SouthWest);
    assert_eq!(Direction::East.opposite(), Direction::West);
    assert_eq!(Direction::SouthEast.opposite(), Direction::NorthWest);
    assert_eq!(Direction::South.opposite(), Direction::North);
    assert_eq!(Direction::SouthWest.opposite(), Direction::NorthEast);
    assert_eq!(Direction::West.opposite(), Direction::East);
    assert_eq!(Direction::NorthWest.opposite(), Direction::SouthEast);
    for direction in DIRECTIONS {
        assert_eq!(direction.opposite().opposite(), direction);
        let Distance(dx, dy) = direction.delta();
        assert_eq!(direction.opposite().delta(), Distance(-dx, -dy));
    }
}

#[test]
fn a_diagonal_is_the_sum_of_its_parts() {
    let parts = [
        (Direction::NorthEast, Direction::North, Direction::East),
        (Direction::NorthWest, Direction::North, Direction::West),
        (Direction::SouthEast, Direction::South, Direction::East),
        (Direction::SouthWest, Direction::South, Direction::West),
    ];
    for (diagonal, vertical, horizontal) in parts {
        let Distance(dx, dy) = diagonal.delta();
        let Distance(vx, vy) = vertical.delta();
        let Distance(hx, hy) = horizontal.delta();
        assert_eq!((dx, dy), (vx + hx, vy + hy));
    }
}

#[test]
fn each_tile_has_its_character() {
    assert_eq!(Tile::try_from('.'), Ok(Tile::EmptyFloor));
    assert_eq!(Tile::try_from('#'), Ok(Tile::Wall));
    assert_eq!(Tile::try_from('X'), Ok(Tile::Lava));
    assert_eq!(Tile::try_from('s'), Ok(Tile::Switch));
    assert_eq!(Tile::EmptyFloor.symbol(), '.');
    assert_eq!(Tile::Wall.symbol(), '#');
    assert_eq!(Tile::Lava.symbol(), 'X');
    assert_eq!(Tile::Switch.symbol(), 's');
    for tile in [Tile::EmptyFloor, Tile::Wall, Tile::Lava, Tile::Switch] {
        assert_eq!(Tile::try_from(tile.symbol()), Ok(tile));
    }
}

#[test]
fn other_characters_are_no_tiles() {
    assert_eq!(Tile::try_from('x'), Err(MapParseError::InvalidCharacter('x')));
    assert_eq!(Tile::try_from('S'), Err(MapParseError::InvalidCharacter('S')));
    assert_eq!(Tile::try_from(' '), Err(MapParseError::InvalidCharacter(' ')));
    assert_eq!(Tile::try_from('\n'), Err(MapParseError::InvalidCharacter('\n')));
    assert_eq!(Tile::try_from('\u{1F525}'), Err(MapParseError::InvalidCharacter('\u{1F525}')));
}
