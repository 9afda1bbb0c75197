use roguelike::game::Game;
use roguelike::grid::Grid;
use roguelike::grid::Rect;
use roguelike::mapgen::create_h_tunnel;
use roguelike::mapgen::create_room;
use roguelike::mapgen::create_v_tunnel;
use roguelike::mapgen::make_map;
use roguelike::tile::Tile;

#[test]
fn tile_values() {
    let empty = Tile::empty();
    assert!(!empty.blocked);
    assert!(!empty.block_sight);
    let wall = Tile::wall();
    assert!(wall.blocked);
    assert!(wall.block_sight);
}

#[test]
fn rect_new_corners() {
    let r = Rect::new(20, 15, 10, 15);
    assert_eq!(r.x1, 20);
    assert_eq!(r.y1, 15);
    assert_eq!(r.x2, 30);
    assert_eq!(r.y2, 30);
}

#[test]
fn new_grid_is_all_wall() {
    let g = Grid::new(8, 5);
    assert_eq!(g.width(), 8);
    assert_eq!(g.height(), 5);
    for x in 0..8 {
        for y in 0..5 {
            let t = g.tile_at(x, y);
            assert!(t.blocked);
            assert!(t.block_sight);
        }
    }
}

#[test]
fn generated_layout_scenario() {
    // Grid 80x45, all wall, two rooms and one horizontal tunnel at row 23.
    let map = make_map();
    assert_eq!(map.width(), 80);
    assert_eq!(map.height(), 45);
    assert!(!map.tile_at(25, 23).blocked);
    assert!(!map.tile_at(55, 23).blocked);
    assert!(map.tile_at(0, 0).blocked);
    assert!(!map.tile_at(35, 23).blocked);
    assert!(map.tile_at(35, 10).blocked);
}

#[test]
fn room_interior_is_clear() {
    let game = Game::new();
    // Strictly inside the first room: x in 21..=29, y in 16..=29.
    for &(x, y) in &[(21, 16), (25, 20), (29, 29)] {
        let t = game.tile_at(x, y);
        assert!(!t.blocked);
        assert!(!t.block_sight);
    }
    // Strictly inside the second room.
    for &(x, y) in &[(51, 16), (55, 25), (59, 29)] {
        let t = game.tile_at(x, y);
        assert!(!t.blocked);
        assert!(!t.block_sight);
    }
}

#[test]
fn outside_rooms_and_tunnel_is_wall() {
    let game = Game::new();
    // Room boundaries stay walls, as does everything never carved.
    for &(x, y) in &[(20, 16), (30, 16), (50, 20), (49, 22), (0, 44), (79, 0), (40, 24)] {
        let t = game.tile_at(x, y);
        assert!(t.blocked);
        assert!(t.block_sight);
    }
}

#[test]
fn h_tunnel_order_independent() {
    let mut ab = Grid::new(80, 45);
    let mut ba = Grid::new(80, 45);
    create_h_tunnel(&mut ab, 40, 10, 5);
    create_h_tunnel(&mut ba, 10, 40, 5);
    for x in 0..80 {
        for y in 0..45 {
            assert_eq!(ab.tile_at(x, y).blocked, ba.tile_at(x, y).blocked);
            assert_eq!(ab.tile_at(x, y).block_sight, ba.tile_at(x, y).block_sight);
        }
    }
    assert!(!ab.tile_at(10, 5).blocked);
    assert!(!ab.tile_at(40, 5).blocked);
    assert!(!ab.tile_at(25, 5).blocked);
    assert!(ab.tile_at(9, 5).blocked);
    assert!(ab.tile_at(41, 5).blocked);
}

#[test]
fn v_tunnel_order_independent() {
    let mut ab = Grid::new(80, 45);
    let mut ba = Grid::new(80, 45);
    create_v_tunnel(&mut ab, 30, 10, 7);
    create_v_tunnel(&mut ba, 10, 30, 7);
    for x in 0..80 {
        for y in 0..45 {
            assert_eq!(ab.tile_at(x, y).blocked, ba.tile_at(x, y).blocked);
        }
    }
    assert!(!ab.tile_at(7, 10).blocked);
    assert!(!ab.tile_at(7, 30).blocked);
    assert!(!ab.tile_at(7, 20).blocked);
    assert!(ab.tile_at(7, 9).blocked);
    assert!(ab.tile_at(7, 31).blocked);
    assert!(ab.tile_at(6, 20).blocked);
}

#[test]
fn room_carving_leaves_border() {
    let mut g = Grid::new(20, 20);
    create_room(&mut g, Rect::new(2, 3, 5, 4));
    // Interior: x in 3..=6, y in 4..=6.
    assert!(!g.tile_at(3, 4).blocked);
    assert!(!g.tile_at(6, 6).blocked);
    // The rectangle's own boundary stays wall.
    assert!(g.tile_at(2, 4).blocked);
    assert!(g.tile_at(7, 4).blocked);
    assert!(g.tile_at(3, 3).blocked);
    assert!(g.tile_at(3, 7).blocked);
}

#[test]
fn overlapping_rooms_union_their_cells() {
    let mut g = Grid::new(20, 20);
    create_room(&mut g, Rect::new(1, 1, 6, 6));
    create_room(&mut g, Rect::new(4, 4, 6, 6));
    // Cells cleared by either room stay clear.
    assert!(!g.tile_at(2, 2).blocked);
    assert!(!g.tile_at(9, 9).blocked);
    // A cell inside both rooms is simply clear.
    assert!(!g.tile_at(5, 5).blocked);
    // A cell in neither stays wall.
    assert!(g.tile_at(12, 12).blocked);
}

#[test]
fn degenerate_room_carves_nothing() {
    let mut g = Grid::new(10, 10);
    create_room(&mut g, Rect::new(3, 3, 1, 1));
    for x in 0..10 {
        for y in 0..10 {
            assert!(g.tile_at(x, y).blocked);
        }
    }
}
