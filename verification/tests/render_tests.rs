use roguelike::color::color_black;
use roguelike::color::color_dark_ground;
use roguelike::color::color_dark_wall;
use roguelike::color::color_white;
use roguelike::color::color_yellow;
use roguelike::console::Frame;
use roguelike::console::Glyph;
use roguelike::game::Game;
use roguelike::object::Object;
use roguelike::render::render_all;

#[test]
fn new_frame_is_cleared() {
    let f = Frame::new(4, 3);
    assert_eq!(f.width(), 4);
    assert_eq!(f.height(), 3);
    for x in 0..4 {
        for y in 0..3 {
            assert_eq!(f.background_at(x, y), color_black());
            assert_eq!(f.glyph_at(x, y), None);
        }
    }
}

#[test]
fn draw_puts_glyph_and_keeps_backgrounds() {
    let mut f = Frame::new(10, 10);
    let o = Object::new(3, 4, '@', color_white());
    o.draw(&mut f);
    assert_eq!(f.glyph_at(3, 4), Some(Glyph { ch: '@', color: color_white() }));
    assert_eq!(f.glyph_at(4, 3), None);
    for x in 0..10 {
        for y in 0..10 {
            assert_eq!(f.background_at(x, y), color_black());
        }
    }
}

#[test]
fn later_draw_on_same_cell_wins() {
    let mut f = Frame::new(10, 10);
    Object::new(3, 4, '@', color_white()).draw(&mut f);
    Object::new(3, 4, 'X', color_yellow()).draw(&mut f);
    assert_eq!(f.glyph_at(3, 4), Some(Glyph { ch: 'X', color: color_yellow() }));
}

#[test]
fn clear_resets_both_channels() {
    let game = Game::new();
    let mut f = Frame::new(80, 45);
    let objects = vec![Object::new(25, 23, '@', color_white())];
    render_all(&mut f, &game, &objects);
    f.clear();
    assert_eq!(f.glyph_at(25, 23), None);
    assert_eq!(f.background_at(25, 23), color_black());
    assert_eq!(f.background_at(0, 0), color_black());
}

#[test]
fn background_matches_sight_flag_at_every_cell() {
    // Render, then read the composed buffer back: the tint at each cell is
    // the two-color mapping of that cell's sight flag, nothing else.
    let game = Game::new();
    let mut f = Frame::new(80, 45);
    let objects = vec![
        Object::new(25, 23, '@', color_white()),
        Object::new(55, 23, 'X', color_yellow()),
    ];
    render_all(&mut f, &game, &objects);
    for x in 0..80 {
        for y in 0..45 {
            let expected = if game.tile_at(x, y).block_sight {
                color_dark_wall()
            } else {
                color_dark_ground()
            };
            assert_eq!(f.background_at(x, y), expected);
        }
    }
}

#[test]
fn render_composes_glyphs_over_backgrounds() {
    let game = Game::new();
    let mut f = Frame::new(80, 45);
    let objects = vec![
        Object::new(25, 23, '@', color_white()),
        Object::new(55, 23, 'X', color_yellow()),
    ];
    render_all(&mut f, &game, &objects);
    // The entity glyphs are present at their cells...
    assert_eq!(f.glyph_at(25, 23), Some(Glyph { ch: '@', color: color_white() }));
    assert_eq!(f.glyph_at(55, 23), Some(Glyph { ch: 'X', color: color_yellow() }));
    assert_eq!(f.glyph_at(1, 1), None);
    // ...and setting the backgrounds did not erase them, nor the glyphs the
    // tints: both channels are composed at the entity cells.
    assert_eq!(f.background_at(25, 23), color_dark_ground());
    assert_eq!(f.background_at(0, 0), color_dark_wall());
}
