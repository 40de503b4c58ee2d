use std::str::FromStr;

use bomber_game::{Action, Direction, Fool, GameMap, Location, Player, Tile, World};

const SPAWN: Location = Location(4, 0);

const OPEN: &str = "#########\n\
                    #.......#\n\
                    #.......#\n\
                    ####.####";

const LAVA_AHEAD: &str = "#########\n\
                          #.......#\n\
                          #...X...#\n\
                          ####.####";

const LAVA_AHEAD_AND_LEFT: &str = "#########\n\
                                   #.......#\n\
                                   #..XX...#\n\
                                   ####.####";

fn toward(action: Action) -> Direction {
    match action {
        Action::Move(direction) => direction,
        _ => unreachable!(),
    }
}

#[test]
fn the_world_shows_the_tiles_around_a_location() {
    let map = GameMap::from_str(LAVA_AHEAD).unwrap();
    let world = map.world_at(SPAWN);
    assert_eq!(world.inspect(Direction::North), Tile::Lava);
    assert_eq!(world.inspect(Direction::NorthWest), Tile::EmptyFloor);
    assert_eq!(world.inspect(Direction::NorthEast), Tile::EmptyFloor);
    assert_eq!(world.inspect(Direction::East), Tile::Wall);
    assert_eq!(world.inspect(Direction::West), Tile::Wall);
    assert_eq!(world.inspect(Direction::South), Tile::Wall);
    assert_eq!(world.inspect(Direction::SouthEast), Tile::Wall);
    assert_eq!(world.inspect(Direction::SouthWest), Tile::Wall);
}

#[test]
fn the_world_is_the_map_seen_from_a_location() {
    let map = GameMap::from_str(LAVA_AHEAD).unwrap();
    let directions = [
        Direction::North,
        Direction::NorthEast,
        Direction::East,
        Direction::SouthEast,
        Direction::South,
        Direction::SouthWest,
        Direction::West,
        Direction::NorthWest,
    ];
    for x in 0..10 {
        for y in 0..5 {
            let world = map.world_at(Location(x, y));
            for direction in directions {
                assert_eq!(world.inspect(direction), map.inspect_from(Location(x, y), direction));
            }
        }
    }
}

#[test]
fn a_fool_heads_north_or_nearly_north_in_turn() {
    let map = GameMap::from_str(OPEN).unwrap();
    let world = map.world_at(SPAWN);
    let mut fool = Fool::spawn();
    assert_eq!(fool.act(&world), Action::Move(Direction::North));
    assert_eq!(fool.act(&world), Action::Move(Direction::NorthWest));
    assert_eq!(fool.act(&world), Action::Move(Direction::NorthEast));
    assert_eq!(fool.act(&world), Action::Move(Direction::North));
    assert_eq!(fool.act(&world), Action::Move(Direction::NorthWest));
    assert_eq!(fool.act(&world), Action::Move(Direction::NorthEast));
}

#[test]
fn a_fool_turns_away_from_lava_ahead() {
    let map = GameMap::from_str(LAVA_AHEAD).unwrap();
    let world = map.world_at(SPAWN);
    let mut fool = Fool::spawn();
    let first = toward(fool.act(&world));
    assert_eq!(first, Direction::NorthWest);
    assert_ne!(map.inspect_from(SPAWN, first), Tile::Lava);
    assert_eq!(map.inspect_from(SPAWN, Direction::North), Tile::Lava);
}

#[test]
fn a_fool_that_turned_away_goes_on_with_its_rotation() {
    let map = GameMap::from_str(LAVA_AHEAD).unwrap();
    let world = map.world_at(SPAWN);
    let mut fool = Fool::spawn();
    assert_eq!(fool.act(&world), Action::Move(Direction::NorthWest));
    assert_eq!(fool.act(&world), Action::Move(Direction::NorthWest));
    assert_eq!(fool.act(&world), Action::Move(Direction::NorthEast));
    assert_eq!(fool.act(&world), Action::Move(Direction::NorthWest));
}

#[test]
fn a_fool_does_not_look_twice() {
    let map = GameMap::from_str(LAVA_AHEAD_AND_LEFT).unwrap();
    let world = map.world_at(SPAWN);
    let mut fool = Fool::spawn();
    assert_eq!(fool.act(&world), Action::Move(Direction::NorthWest));
    assert_eq!(fool.act(&world), Action::Move(Direction::NorthEast));
    assert_eq!(fool.act(&world), Action::Move(Direction::NorthEast));
    assert_eq!(fool.act(&world), Action::Move(Direction::NorthWest));
}

#[test]
fn two_fools_decide_alike() {
    let map = GameMap::from_str(LAVA_AHEAD).unwrap();
    let world = map.world_at(SPAWN);
    let mut one = Fool::spawn();
    let mut other = Fool::spawn();
    for _ in 0..7 {
        assert_eq!(one.act(&world), other.act(&world));
    }
}
