//! The map generator: carves rectangular room interiors and straight
//! one-tile-wide tunnels into an all-wall grid, and builds the fixed
//! two-room demo layout.

use vstd::prelude::*;

use crate::grid::Grid;
use crate::grid::Rect;
use crate::tile::Tile;

verus! {

/// The coordinates a straight tunnel between `x1` and `x2` clears along
/// its axis: the closed run `[min(x1, x2), max(x1, x2)]`, whichever order
/// the endpoints were given in.
pub open spec fn run_covers(x1: int, x2: int, x: int) -> bool {
    (if x1 <= x2 {
        x1
    } else {
        x2
    }) <= x <= (if x1 <= x2 {
        x2
    } else {
        x1
    })
}

/// What carving a room does to a grid: the rectangle's strict interior is
/// cleared, every other cell keeps its old tile, and the dimensions stay.
pub open spec fn room_carved(pre: Grid, post: Grid, room: Rect) -> bool {
    &&& post.wf()
    &&& post.spec_width() == pre.spec_width()
    &&& post.spec_height() == pre.spec_height()
    &&& forall|x: int, y: int|
        pre.in_bounds(x, y) ==> post.spec_tile(x, y) == (if room.interior_contains(x, y) {
            Tile::empty_spec()
        } else {
            pre.spec_tile(x, y)
        })
}

/// What carving a horizontal tunnel does to a grid: row `y` is cleared on
/// the closed column run between the endpoints, everything else keeps its
/// old tile, and the dimensions stay.
pub open spec fn h_tunnel_carved(pre: Grid, post: Grid, x1: int, x2: int, y: int) -> bool {
    &&& post.wf()
    &&& post.spec_width() == pre.spec_width()
    &&& post.spec_height() == pre.spec_height()
    &&& forall|x: int, yy: int|
        pre.in_bounds(x, yy) ==> post.spec_tile(x, yy) == (if yy == y && run_covers(
            x1,
            x2,
            x,
        ) {
            Tile::empty_spec()
        } else {
            pre.spec_tile(x, yy)
        })
}

/// What carving a vertical tunnel does to a grid, mirror of the horizontal
/// case: column `x` is cleared on the closed row run between the endpoints.
pub open spec fn v_tunnel_carved(pre: Grid, post: Grid, y1: int, y2: int, x: int) -> bool {
    &&& post.wf()
    &&& post.spec_width() == pre.spec_width()
    &&& post.spec_height() == pre.spec_height()
    &&& forall|xx: int, y: int|
        pre.in_bounds(xx, y) ==> post.spec_tile(xx, y) == (if xx == x && run_covers(
            y1,
            y2,
            y,
        ) {
            Tile::empty_spec()
        } else {
            pre.spec_tile(xx, y)
        })
}

/// Clear the strict interior of `room`. Overlapping rooms simply union
/// their cleared cells; clearing an already clear cell is harmless.
pub fn create_room(map: &mut Grid, room: Rect)
    requires
        old(map).wf(),
        room.x1 + 1 < room.x2 && room.y1 + 1 < room.y2 ==> 0 <= room.x1 + 1 && room.x2 <= old(
            map,
        ).spec_width() && 0 <= room.y1 + 1 && room.y2 <= old(map).spec_height(),
    ensures
        room_carved(*old(map), *final(map), room),
{
    let ghost pre = *map;
    if (room.x1 as i64) + 1 < (room.x2 as i64) && (room.y1 as i64) + 1 < (room.y2 as i64) {
        let x_lo = (room.x1 + 1) as usize;
        let x_hi = room.x2 as usize;
        let y_lo = (room.y1 + 1) as usize;
        let y_hi = room.y2 as usize;
        let mut x = x_lo;
        while x < x_hi
            invariant
                map.wf(),
                map.spec_width() == pre.spec_width(),
                map.spec_height() == pre.spec_height(),
                x_lo <= x <= x_hi,
                x_lo == room.x1 + 1,
                x_hi == room.x2,
                y_lo == room.y1 + 1,
                y_hi == room.y2,
                0 <= x_lo < x_hi <= pre.spec_width(),
                0 <= y_lo < y_hi <= pre.spec_height(),
                forall|xx: int, yy: int|
                    pre.in_bounds(xx, yy) ==> map.spec_tile(xx, yy) == (if x_lo <= xx < x && y_lo
                        <= yy < y_hi {
                        Tile::empty_spec()
                    } else {
                        pre.spec_tile(xx, yy)
                    }),
            decreases x_hi - x,
        {
            let mut y = y_lo;
            while y < y_hi
                invariant
                    map.wf(),
                    map.spec_width() == pre.spec_width(),
                    map.spec_height() == pre.spec_height(),
                    x_lo <= x < x_hi,
                    y_lo <= y <= y_hi,
                    0 <= x_lo < x_hi <= pre.spec_width(),
                    0 <= y_lo < y_hi <= pre.spec_height(),
                    forall|xx: int, yy: int|
                        pre.in_bounds(xx, yy) ==> map.spec_tile(xx, yy) == (if (x_lo <= xx < x
                            && y_lo <= yy < y_hi) || (xx == x && y_lo <= yy < y) {
                            Tile::empty_spec()
                        } else {
                            pre.spec_tile(xx, yy)
                        }),
                decreases y_hi - y,
            {
                map.set_tile(x, y, Tile::empty());
                y += 1;
            }
            x += 1;
        }
    }
}

/// Clear a straight horizontal run at row `y` between columns `x1` and
/// `x2`, inclusive of both endpoints, in either argument order.
pub fn create_h_tunnel(map: &mut Grid, x1: i32, x2: i32, y: i32)
    requires
        old(map).wf(),
        0 <= x1 < old(map).spec_width(),
        0 <= x2 < old(map).spec_width(),
        0 <= y < old(map).spec_height(),
    ensures
        h_tunnel_carved(*old(map), *final(map), x1 as int, x2 as int, y as int),
{
    let ghost pre = *map;
    let lo: usize = (if x1 <= x2 {
        x1
    } else {
        x2
    }) as usize;
    let hi: usize = (if x1 <= x2 {
        x2
    } else {
        x1
    }) as usize;
    let mut x = lo;
    while x <= hi
        invariant
            map.wf(),
            map.spec_width() == pre.spec_width(),
            map.spec_height() == pre.spec_height(),
            lo <= x <= hi + 1,
            hi < pre.spec_width(),
            0 <= y < pre.spec_height(),
            forall|xx: int, yy: int|
                pre.in_bounds(xx, yy) ==> map.spec_tile(xx, yy) == (if yy == y && lo <= xx < x {
                    Tile::empty_spec()
                } else {
                    pre.spec_tile(xx, yy)
                }),
        decreases hi + 1 - x,
    {
        map.set_tile(x, y as usize, Tile::empty());
        proof {
            crate::grid::lemma_wf_bounds(*map);
        }
        x += 1;
    }
}

/// Clear a straight vertical run at column `x` between rows `y1` and `y2`,
/// inclusive of both endpoints, in either argument order.
pub fn create_v_tunnel(map: &mut Grid, y1: i32, y2: i32, x: i32)
    requires
        old(map).wf(),
        0 <= y1 < old(map).spec_height(),
        0 <= y2 < old(map).spec_height(),
        0 <= x < old(map).spec_width(),
    ensures
        v_tunnel_carved(*old(map), *final(map), y1 as int, y2 as int, x as int),
{
    let ghost pre = *map;
    let lo: usize = (if y1 <= y2 {
        y1
    } else {
        y2
    }) as usize;
    let hi: usize = (if y1 <= y2 {
        y2
    } else {
        y1
    }) as usize;
    let mut y = lo;
    while y <= hi
        invariant
            map.wf(),
            map.spec_width() == pre.spec_width(),
            map.spec_height() == pre.spec_height(),
            lo <= y <= hi + 1,
            hi < pre.spec_height(),
            0 <= x < pre.spec_width(),
            forall|xx: int, yy: int|
                pre.in_bounds(xx, yy) ==> map.spec_tile(xx, yy) == (if xx == x && lo <= yy < y {
                    Tile::empty_spec()
                } else {
                    pre.spec_tile(xx, yy)
                }),
        decreases hi + 1 - y,
    {
        map.set_tile(x as usize, y, Tile::empty());
        proof {
            crate::grid::lemma_wf_bounds(*map);
        }
        y += 1;
    }
}

/// The run a tunnel clears does not depend on the order of its endpoints.
pub proof fn lemma_tunnel_covers_symmetric(a: int, b: int, c: int)
    ensures
        run_covers(a, b, c) == run_covers(b, a, c),
{
}

/// Carving a tunnel from `a` to `b` and from `b` to `a` over the same
/// starting grid clears the same cell set: the two results agree on every
/// cell.
pub proof fn lemma_h_tunnel_order_independent(
    pre: Grid,
    ab: Grid,
    ba: Grid,
    x1: int,
    x2: int,
    y: int,
)
    requires
        h_tunnel_carved(pre, ab, x1, x2, y),
        h_tunnel_carved(pre, ba, x2, x1, y),
    ensures
        forall|x: int, yy: int| pre.in_bounds(x, yy) ==> ab.spec_tile(x, yy) == ba.spec_tile(x, yy),
{
    assert forall|x: int, yy: int| pre.in_bounds(x, yy) implies ab.spec_tile(x, yy) == ba.spec_tile(
        x,
        yy,
    ) by {
        lemma_tunnel_covers_symmetric(x1, x2, x);
    }
}

/// Mirror of the order-independence law for vertical tunnels.
pub proof fn lemma_v_tunnel_order_independent(
    pre: Grid,
    ab: Grid,
    ba: Grid,
    y1: int,
    y2: int,
    x: int,
)
    requires
        v_tunnel_carved(pre, ab, y1, y2, x),
        v_tunnel_carved(pre, ba, y2, y1, x),
    ensures
        forall|xx: int, y: int| pre.in_bounds(xx, y) ==> ab.spec_tile(xx, y) == ba.spec_tile(xx, y),
{
    assert forall|xx: int, y: int| pre.in_bounds(xx, y) implies ab.spec_tile(xx, y) == ba.spec_tile(
        xx,
        y,
    ) by {
        lemma_tunnel_covers_symmetric(y1, y2, y);
    }
}

/// First room of the fixed demo layout.
pub open spec fn room_one() -> Rect {
    Rect { x1: 20, y1: 15, x2: 30, y2: 30 }
}

/// Second room of the fixed demo layout.
pub open spec fn room_two() -> Rect {
    Rect { x1: 50, y1: 15, x2: 60, y2: 30 }
}

/// The cells the fixed layout carves: the interiors of its two rooms and
/// the horizontal tunnel joining them at row 23.
pub open spec fn layout_carved(x: int, y: int) -> bool {
    ||| room_one().interior_contains(x, y)
    ||| room_two().interior_contains(x, y)
    ||| y == 23 && run_covers(25, 55, x)
}

/// A grid the generator produced: the fixed dimensions, carved cells clear,
/// every other cell still an untouched wall.
pub open spec fn generated(g: Grid) -> bool {
    &&& g.wf()
    &&& g.spec_width() == 80
    &&& g.spec_height() == 45
    &&& forall|x: int, y: int|
        g.in_bounds(x, y) ==> g.spec_tile(x, y) == (if layout_carved(x, y) {
            Tile::empty_spec()
        } else {
            Tile::wall_spec()
        })
}

/// Build the playable layout: an 80-by-45 all-wall grid with two room
/// interiors and one connecting tunnel carved out. Deterministic; cannot
/// fail; the grid is never mutated afterwards.
pub fn make_map() -> (map: Grid)
    ensures
        generated(map),
{
    let mut map = Grid::new(80, 45);
    let room1 = Rect::new(20, 15, 10, 15);
    let room2 = Rect::new(50, 15, 10, 15);
    create_room(&mut map, room1);
    create_room(&mut map, room2);
    create_h_tunnel(&mut map, 25, 55, 23);
    map
}

/// Every cell outside both room interiors and the tunnel run of the fixed
/// layout is still a wall: blocked and sight-blocking.
pub proof fn lemma_generated_outside_is_wall(g: Grid, x: int, y: int)
    requires
        generated(g),
        g.in_bounds(x, y),
        !layout_carved(x, y),
    ensures
        g.spec_tile(x, y).blocked,
        g.spec_tile(x, y).block_sight,
{
}

/// Every cell strictly inside a placed room's interior is passable and
/// transparent.
pub proof fn lemma_generated_interior_is_clear(g: Grid, x: int, y: int)
    requires
        generated(g),
        g.in_bounds(x, y),
        room_one().interior_contains(x, y) || room_two().interior_contains(x, y),
    ensures
        !g.spec_tile(x, y).blocked,
        !g.spec_tile(x, y).block_sight,
{
}

} // verus!
