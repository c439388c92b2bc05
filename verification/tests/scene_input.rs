use dungeon_core::entity::Object;
use dungeon_core::gen::{make_map, Rect};
use dungeon_core::grid::{Game, Grid};
use dungeon_core::input::{handle_keys, KeyAction, KeyCode, KeyEvent};
use dungeon_core::scene::{
    dark_ground_color, dark_wall_color, render_all, Cell, Color, FrameBuffer,
};
use dungeon_core::tile::Tile;

fn white() -> Color {
    Color { r: 255, g: 255, b: 255 }
}

fn yellow() -> Color {
    Color { r: 255, g: 255, b: 0 }
}

#[test]
fn new_frame_is_blank() {
    let fb = FrameBuffer::new(4, 3);
    assert_eq!(fb.width(), 4);
    assert_eq!(fb.height(), 3);
    for x in 0..4 {
        for y in 0..3 {
            let c = fb.cell_at(x, y);
            assert_eq!(c.glyph, ' ');
            assert_eq!(c.fg, white());
            assert_eq!(c.bg, Color { r: 0, g: 0, b: 0 });
        }
    }
}

#[test]
fn clear_resets_every_cell() {
    let mut fb = FrameBuffer::new(3, 3);
    fb.put_char(1, 2, '@', yellow());
    fb.set_char_background(0, 0, dark_wall_color());
    fb.clear();
    for x in 0..3 {
        for y in 0..3 {
            assert_eq!(fb.cell_at(x, y).glyph, ' ');
            assert_eq!(fb.cell_at(x, y).bg, Color { r: 0, g: 0, b: 0 });
        }
    }
}

#[test]
fn put_char_keeps_background() {
    let mut fb = FrameBuffer::new(3, 3);
    fb.set_char_background(1, 1, dark_ground_color());
    fb.put_char(1, 1, '@', yellow());
    let c = fb.cell_at(1, 1);
    assert_eq!(c.glyph, '@');
    assert_eq!(c.fg, yellow());
    assert_eq!(c.bg, dark_ground_color());
    assert_eq!(fb.cell_at(0, 0).glyph, ' ');
}

#[test]
fn draw_marks_glyph_at_position() {
    let mut fb = FrameBuffer::new(5, 5);
    let o = Object::new(2, 3, 'Y', yellow());
    o.draw(&mut fb);
    let c = fb.cell_at(2, 3);
    assert_eq!(c.glyph, 'Y');
    assert_eq!(c.fg, yellow());
    assert_eq!(fb.cell_at(2, 2).glyph, ' ');
}

#[test]
fn render_all_paints_backgrounds_and_glyphs() {
    let mut map = Grid::new(3, 2, Tile::empty());
    map.set_tile(0, 0, Tile::wall());
    let game = Game { map };
    let mut fb = FrameBuffer::new(3, 2);
    let objects = vec![Object::new(1, 1, '@', white()), Object::new(2, 0, 'Y', yellow())];
    render_all(&mut fb, &game, &objects);

    for x in 0..3 {
        for y in 0..2 {
            let c = fb.cell_at(x, y);
            if (x, y) == (0, 0) {
                assert_eq!(c.bg, dark_wall_color());
            } else {
                assert_eq!(c.bg, dark_ground_color());
            }
        }
    }
    assert_eq!(fb.cell_at(1, 1).glyph, '@');
    assert_eq!(fb.cell_at(1, 1).fg, white());
    assert_eq!(fb.cell_at(2, 0).glyph, 'Y');
    assert_eq!(fb.cell_at(2, 0).fg, yellow());
    assert_eq!(fb.cell_at(0, 1).glyph, ' ');
}

#[test]
fn render_all_last_object_wins_on_shared_cell() {
    let map = Grid::new(2, 2, Tile::empty());
    let game = Game { map };
    let mut fb = FrameBuffer::new(2, 2);
    let objects = vec![Object::new(0, 0, 'a', white()), Object::new(0, 0, 'b', yellow())];
    render_all(&mut fb, &game, &objects);
    assert_eq!(fb.cell_at(0, 0).glyph, 'b');
    assert_eq!(fb.cell_at(0, 0).fg, yellow());
}

#[test]
fn escape_exits() {
    let map = Grid::new(3, 3, Tile::empty());
    let game = Game { map };
    let mut player = Object::new(1, 1, '@', white());
    let action = handle_keys(KeyEvent { code: KeyCode::Escape, alt: false }, &game, &mut player);
    assert_eq!(action, KeyAction::Exit);
    assert_eq!((player.x, player.y), (1, 1));
}

#[test]
fn alt_enter_toggles_fullscreen() {
    let map = Grid::new(3, 3, Tile::empty());
    let game = Game { map };
    let mut player = Object::new(1, 1, '@', white());
    let action = handle_keys(KeyEvent { code: KeyCode::Enter, alt: true }, &game, &mut player);
    assert_eq!(action, KeyAction::ToggleFullscreen);
    let action = handle_keys(KeyEvent { code: KeyCode::Enter, alt: false }, &game, &mut player);
    assert_eq!(action, KeyAction::Nothing);
    assert_eq!((player.x, player.y), (1, 1));
}

#[test]
fn arrow_keys_move_through_collision_gate() {
    let room1 = Rect::new(20, 15, 10, 15);
    let room2 = Rect::new(50, 15, 10, 15);
    let map = make_map(80, 45, room1, room2, 25, 55, 23);
    let game = Game { map };
    let mut player = Object::new(25, 23, '@', white());

    let action = handle_keys(KeyEvent { code: KeyCode::Right, alt: false }, &game, &mut player);
    assert_eq!(action, KeyAction::Nothing);
    assert_eq!((player.x, player.y), (26, 23));

    let action = handle_keys(KeyEvent { code: KeyCode::Up, alt: false }, &game, &mut player);
    assert_eq!(action, KeyAction::Nothing);
    assert_eq!((player.x, player.y), (26, 22));

    // (35, 23) sits on the tunnel between the rooms; the cell above it is wall.
    let mut stuck = Object::new(35, 23, '@', white());
    let action = handle_keys(KeyEvent { code: KeyCode::Up, alt: false }, &game, &mut stuck);
    assert_eq!(action, KeyAction::Nothing);
    assert_eq!((stuck.x, stuck.y), (35, 23));
}

#[test]
fn other_keys_are_ignored() {
    let map = Grid::new(3, 3, Tile::empty());
    let game = Game { map };
    let mut player = Object::new(1, 1, '@', white());
    let action = handle_keys(KeyEvent { code: KeyCode::Other, alt: false }, &game, &mut player);
    assert_eq!(action, KeyAction::Nothing);
    assert_eq!((player.x, player.y), (1, 1));
}
