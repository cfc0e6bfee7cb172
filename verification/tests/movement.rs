use roguelike::game::Game;
use roguelike::map::{make_map, TileMap};
use roguelike::object::{Color, Object};

const WHITE: Color = Color { r: 255, g: 255, b: 255 };

fn walled_map() -> TileMap {
    let mut map = TileMap::create(80, 45);
    map.set_wall(30, 22).unwrap();
    map
}

#[test]
fn new_object_keeps_what_it_was_given() {
    let color = Color { r: 1, g: 2, b: 3 };
    let object = Object::new(25, 23, '@', color);
    assert_eq!(object.x, 25);
    assert_eq!(object.y, 23);
    assert_eq!(object.glyph, '@');
    assert_eq!(object.color, color);
}

#[test]
fn move_into_wall_is_rejected() {
    let map = walled_map();
    let mut object = Object::new(29, 22, '@', WHITE);
    assert!(!object.move_by(1, 0, &map));
    assert_eq!((object.x, object.y), (29, 22));
}

#[test]
fn move_beside_wall_is_accepted() {
    let map = walled_map();
    let mut object = Object::new(29, 23, '@', WHITE);
    assert!(object.move_by(1, 0, &map));
    assert_eq!((object.x, object.y), (30, 23));
}

#[test]
fn move_off_the_map_is_rejected() {
    let map = walled_map();
    let mut object = Object::new(0, 0, '@', WHITE);
    assert!(!object.move_by(-1, 0, &map));
    assert_eq!((object.x, object.y), (0, 0));
}

#[test]
fn rejected_move_is_idempotent() {
    let map = walled_map();
    let mut at_wall = Object::new(29, 22, 'o', WHITE);
    let mut at_edge = Object::new(79, 44, 'o', WHITE);
    for _ in 0..10 {
        assert!(!at_wall.move_by(1, 0, &map));
        assert_eq!(at_wall, Object::new(29, 22, 'o', WHITE));
        assert!(!at_edge.move_by(0, 1, &map));
        assert!(!at_edge.move_by(1, 0, &map));
        assert_eq!(at_edge, Object::new(79, 44, 'o', WHITE));
    }
}

#[test]
fn accepted_move_lands_on_the_target() {
    let map = walled_map();
    let steps = [(1, 0), (-1, 0), (0, 1), (0, -1), (2, 3), (-5, 4), (0, 0)];
    for (dx, dy) in steps {
        let mut object = Object::new(10, 10, 'x', Color { r: 9, g: 8, b: 7 });
        assert!(object.move_by(dx, dy, &map));
        assert_eq!(object, Object::new(10 + dx, 10 + dy, 'x', Color { r: 9, g: 8, b: 7 }));
    }
}

#[test]
fn move_to_every_edge_and_no_further() {
    let map = TileMap::create(3, 2);
    let mut object = Object::new(1, 0, '@', WHITE);
    assert!(object.move_by(1, 1, &map));
    assert_eq!((object.x, object.y), (2, 1));
    assert!(!object.move_by(1, 0, &map));
    assert!(!object.move_by(0, 1, &map));
    assert!(object.move_by(-2, -1, &map));
    assert_eq!((object.x, object.y), (0, 0));
    assert!(!object.move_by(0, -1, &map));
    assert!(!object.move_by(-1, 0, &map));
    assert_eq!((object.x, object.y), (0, 0));
}

#[test]
fn move_past_the_integer_range_is_rejected() {
    let map = walled_map();
    let mut far = Object::new(i32::MAX, i32::MAX, '@', WHITE);
    assert!(!far.move_by(1, 0, &map));
    assert!(!far.move_by(0, 1, &map));
    assert!(!far.move_by(i32::MAX, i32::MAX, &map));
    assert_eq!((far.x, far.y), (i32::MAX, i32::MAX));
    let mut low = Object::new(i32::MIN, i32::MIN, '@', WHITE);
    assert!(!low.move_by(-1, 0, &map));
    assert!(!low.move_by(0, i32::MIN, &map));
    assert_eq!((low.x, low.y), (i32::MIN, i32::MIN));
}

#[test]
fn object_off_the_map_can_step_onto_it() {
    let map = walled_map();
    let mut object = Object::new(-1, 5, '@', WHITE);
    assert!(!object.move_by(0, 1, &map));
    assert!(object.move_by(1, 0, &map));
    assert_eq!((object.x, object.y), (0, 5));
}

#[test]
fn move_on_an_empty_map_is_rejected() {
    let map = TileMap::create(0, 0);
    let mut object = Object::new(0, 0, '@', WHITE);
    assert!(!object.move_by(0, 0, &map));
    assert!(!object.move_by(1, 0, &map));
    assert_eq!((object.x, object.y), (0, 0));
}

#[test]
fn objects_do_not_collide_with_each_other() {
    let map = walled_map();
    let other = Object::new(11, 10, 'n', WHITE);
    let mut game = Game::new(map, vec![Object::new(10, 10, '@', WHITE), other]);
    assert!(game.move_player(1, 0));
    assert_eq!((game.objects[0].x, game.objects[0].y), (11, 10));
    assert_eq!(game.objects[1], other);
}

#[test]
fn player_move_leaves_the_others_alone() {
    let npc = Object::new(40, 25, '@', Color { r: 255, g: 255, b: 0 });
    let mut game = Game::new(make_map(), vec![Object::new(29, 22, '@', WHITE), npc]);
    assert!(!game.move_player(1, 0));
    assert_eq!(game.objects, vec![Object::new(29, 22, '@', WHITE), npc]);
    assert!(game.move_player(0, 1));
    assert_eq!(game.objects, vec![Object::new(29, 23, '@', WHITE), npc]);
    assert_eq!(game.map.is_blocked(30, 22), Ok(true));
    assert_eq!(game.map.is_blocked(29, 23), Ok(false));
}

#[test]
fn game_without_objects_moves_nothing() {
    let mut game = Game::new(make_map(), Vec::new());
    assert!(!game.move_player(1, 0));
    assert!(game.objects.is_empty());
}
