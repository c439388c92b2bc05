use dungeon_core::entity::{MoveOutcome, Object};
use dungeon_core::gen::{make_map, Rect};
use dungeon_core::grid::{Game, Grid};
use dungeon_core::scene::Color;
use dungeon_core::tile::Tile;

fn white() -> Color {
    Color { r: 255, g: 255, b: 255 }
}

#[test]
fn object_new_keeps_fields() {
    let o = Object::new(25, 23, '@', white());
    assert_eq!(o.x, 25);
    assert_eq!(o.y, 23);
    assert_eq!(o.glyph, '@');
    assert_eq!(o.color, white());
}

#[test]
fn move_by_into_open_cell_updates_both_coordinates() {
    let mut map = Grid::new(5, 5, Tile::empty());
    map.set_tile(0, 0, Tile::wall());
    let game = Game { map };
    let mut o = Object::new(2, 2, '@', white());
    let moved = o.move_by(1, 1, &game);
    assert!(moved);
    assert_eq!((o.x, o.y), (3, 3));
}

#[test]
fn move_by_into_blocked_cell_keeps_position() {
    let mut map = Grid::new(5, 5, Tile::empty());
    map.set_tile(3, 2, Tile::wall());
    let game = Game { map };
    let mut o = Object::new(2, 2, '@', white());
    let moved = o.move_by(1, 0, &game);
    assert!(!moved);
    assert_eq!((o.x, o.y), (2, 2));
}

#[test]
fn try_move_by_reports_each_outcome() {
    let mut map = Grid::new(3, 3, Tile::empty());
    map.set_tile(1, 0, Tile::wall());
    let game = Game { map };

    let mut o = Object::new(0, 0, '@', white());
    assert_eq!(o.try_move_by(-1, 0, &game), MoveOutcome::OutOfBounds);
    assert_eq!((o.x, o.y), (0, 0));
    assert_eq!(o.try_move_by(1, 0, &game), MoveOutcome::Blocked);
    assert_eq!((o.x, o.y), (0, 0));
    assert_eq!(o.try_move_by(0, 1, &game), MoveOutcome::Moved);
    assert_eq!((o.x, o.y), (0, 1));
}

#[test]
fn end_to_end_two_rooms_one_tunnel() {
    let room1 = Rect::new(20, 15, 10, 15);
    let room2 = Rect::new(50, 15, 10, 15);
    let map = make_map(80, 45, room1, room2, 25, 55, 23);

    for x in 21..30usize {
        for y in 16..30usize {
            assert_eq!(map.at(x, y), Tile::empty());
        }
    }
    for x in 51..60usize {
        for y in 16..30usize {
            assert_eq!(map.at(x, y), Tile::empty());
        }
    }
    for x in 25..=55usize {
        assert_eq!(map.at(x, 23), Tile::empty());
    }

    let game = Game { map };

    let mut player = Object::new(25, 23, '@', white());
    let moved = player.move_by(1, 0, &game);
    assert!(moved);
    assert_eq!((player.x, player.y), (26, 23));

    let mut npc = Object::new(30, 14, 'Y', white());
    let moved = npc.move_by(0, -1, &game);
    assert!(!moved);
    assert_eq!((npc.x, npc.y), (30, 14));
}
