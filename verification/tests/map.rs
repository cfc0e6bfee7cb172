use roguelike::map::{make_map, MapError, TileMap, MAP_HEIGHT, MAP_WIDTH};
use roguelike::tile::Tile;

#[test]
fn empty_tile_is_open() {
    let tile = Tile::empty();
    assert!(!tile.blocked);
    assert!(!tile.block_sight);
}

#[test]
fn wall_tile_blocks_movement_and_sight() {
    let tile = Tile::wall();
    assert!(tile.blocked);
    assert!(tile.block_sight);
    assert_ne!(Tile::wall(), Tile::empty());
}

#[test]
fn created_map_has_the_requested_size() {
    let map = TileMap::create(7, 3);
    assert_eq!(map.width(), 7);
    assert_eq!(map.height(), 3);
}

#[test]
fn created_map_is_open_everywhere() {
    let map = TileMap::create(7, 3);
    for x in 0..7 {
        for y in 0..3 {
            assert_eq!(map.is_blocked(x, y), Ok(false));
            assert_eq!(map.blocks_sight(x, y), Ok(false));
        }
    }
}

#[test]
fn queries_inside_the_map_succeed() {
    let map = TileMap::create(80, 45);
    assert!(map.is_blocked(0, 0).is_ok());
    assert!(map.is_blocked(79, 44).is_ok());
    assert!(map.blocks_sight(0, 44).is_ok());
    assert!(map.blocks_sight(79, 0).is_ok());
}

#[test]
fn queries_outside_the_map_fail() {
    let map = TileMap::create(80, 45);
    let outside = [
        (-1, 0),
        (0, -1),
        (80, 0),
        (0, 45),
        (80, 45),
        (-1, -1),
        (i32::MIN, 0),
        (i32::MAX, 0),
        (0, i32::MIN),
        (0, i32::MAX),
    ];
    for (x, y) in outside {
        assert_eq!(map.is_blocked(x, y), Err(MapError::OutOfBounds));
        assert_eq!(map.blocks_sight(x, y), Err(MapError::OutOfBounds));
    }
}

#[test]
fn empty_map_has_no_cell() {
    let map = TileMap::create(0, 0);
    assert_eq!(map.width(), 0);
    assert_eq!(map.height(), 0);
    assert_eq!(map.is_blocked(0, 0), Err(MapError::OutOfBounds));
    let narrow = TileMap::create(0, 5);
    assert_eq!(narrow.width(), 0);
    assert_eq!(narrow.height(), 5);
    assert_eq!(narrow.blocks_sight(0, 2), Err(MapError::OutOfBounds));
    let flat = TileMap::create(5, 0);
    assert_eq!(flat.is_blocked(2, 0), Err(MapError::OutOfBounds));
}

#[test]
fn wall_round_trip() {
    let (width, height) = (12, 9);
    let (wx, wy) = (4, 7);
    let mut map = TileMap::create(width, height);
    assert_eq!(map.set_wall(wx, wy), Ok(()));
    for x in 0..width {
        for y in 0..height {
            let is_wall = x == wx && y == wy;
            assert_eq!(map.is_blocked(x, y), Ok(is_wall));
            assert_eq!(map.blocks_sight(x, y), Ok(is_wall));
        }
    }
    assert_eq!(map.width(), width);
    assert_eq!(map.height(), height);
}

#[test]
fn wall_in_the_corners() {
    let mut map = TileMap::create(3, 2);
    assert_eq!(map.set_wall(0, 0), Ok(()));
    assert_eq!(map.set_wall(2, 1), Ok(()));
    assert_eq!(map.is_blocked(0, 0), Ok(true));
    assert_eq!(map.is_blocked(2, 1), Ok(true));
    assert_eq!(map.is_blocked(1, 0), Ok(false));
    assert_eq!(map.is_blocked(0, 1), Ok(false));
    assert_eq!(map.is_blocked(2, 0), Ok(false));
    assert_eq!(map.is_blocked(1, 1), Ok(false));
}

#[test]
fn setting_a_wall_twice_is_setting_it_once() {
    let mut map = TileMap::create(3, 3);
    assert_eq!(map.set_wall(1, 2), Ok(()));
    assert_eq!(map.set_wall(1, 2), Ok(()));
    assert_eq!(map.is_blocked(1, 2), Ok(true));
    assert_eq!(map.is_blocked(2, 1), Ok(false));
}

#[test]
fn wall_outside_the_map_is_refused() {
    let mut map = TileMap::create(3, 2);
    assert_eq!(map.set_wall(3, 0), Err(MapError::OutOfBounds));
    assert_eq!(map.set_wall(0, 2), Err(MapError::OutOfBounds));
    assert_eq!(map.set_wall(-1, 0), Err(MapError::OutOfBounds));
    assert_eq!(map.set_wall(0, -1), Err(MapError::OutOfBounds));
    for x in 0..3 {
        for y in 0..2 {
            assert_eq!(map.is_blocked(x, y), Ok(false));
        }
    }
}

#[test]
fn game_map_has_its_size() {
    assert_eq!(MAP_WIDTH, 80);
    assert_eq!(MAP_HEIGHT, 45);
    let map = make_map();
    assert_eq!(map.width(), 80);
    assert_eq!(map.height(), 45);
}

#[test]
fn game_map_has_two_walls() {
    let map = make_map();
    let mut walls = Vec::new();
    for x in 0..MAP_WIDTH {
        for y in 0..MAP_HEIGHT {
            let blocked = map.is_blocked(x, y).unwrap();
            assert_eq!(map.blocks_sight(x, y), Ok(blocked));
            if blocked {
                walls.push((x, y));
            }
        }
    }
    assert_eq!(walls, vec![(30, 22), (50, 22)]);
}
