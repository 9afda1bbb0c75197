//! The renderer: composes the map background and the entity glyphs into a
//! frame buffer. The two passes write independent channels, so their order
//! cannot change the visible frame; presentation itself is the shell's job.

use vstd::prelude::*;

use crate::color::color_dark_ground;
use crate::color::color_dark_wall;
use crate::color::dark_ground_spec;
use crate::color::dark_wall_spec;
use crate::color::Color;
use crate::console::Frame;
use crate::console::Glyph;
use crate::game::Game;
use crate::object::Object;

verus! {

/// The background tint a cell gets: one fixed color for sight-blocking
/// (wall) cells, the other for all the rest, derived solely from the
/// tile's `block_sight` flag.
pub open spec fn background_for(game: Game, x: int, y: int) -> Color {
    if game.spec_tile(x, y).block_sight {
        dark_wall_spec()
    } else {
        dark_ground_spec()
    }
}

/// The background tint a cell gets is a function of its tile's
/// `block_sight` flag alone: two cells, even of different worlds, whose
/// flags agree are tinted alike.
pub proof fn lemma_background_from_sight_alone(
    g1: Game,
    x1: int,
    y1: int,
    g2: Game,
    x2: int,
    y2: int,
)
    requires
        g1.spec_tile(x1, y1).block_sight == g2.spec_tile(x2, y2).block_sight,
    ensures
        background_for(g1, x1, y1) == background_for(g2, x2, y2),
{
}

/// The glyph layer after the objects of `objs` were drawn in order over a
/// layer that read `prior` at `(x, y)`: the last object standing on the
/// cell wins; a cell no object stands on keeps its prior reading.
pub open spec fn glyphs_after(objs: Seq<Object>, prior: Option<Glyph>, x: int, y: int) -> Option<
    Glyph,
>
    decreases objs.len(),
{
    if objs.len() == 0 {
        prior
    } else {
        if objs.last().x == x && objs.last().y == y {
            Option::Some(objs.last().spec_glyph())
        } else {
            glyphs_after(objs.drop_last(), prior, x, y)
        }
    }
}

/// Repaint one frame: draw every object's glyph at its cell, then tint
/// every cell's background from its tile's `block_sight` flag. Glyphs and
/// background are independent channels, so neither pass erases the other.
pub fn render_all(con: &mut Frame, game: &Game, objects: &[Object])
    requires
        old(con).wf(),
        game.wf(),
        old(con).spec_width() == game.spec_width(),
        old(con).spec_height() == game.spec_height(),
        forall|i: int|
            0 <= i < objects@.len() ==> game.in_bounds(
                objects@[i].x as int,
                objects@[i].y as int,
            ),
    ensures
        final(con).wf(),
        final(con).spec_width() == old(con).spec_width(),
        final(con).spec_height() == old(con).spec_height(),
        forall|x: int, y: int|
            old(con).in_bounds(x, y) ==> final(con).spec_bg(x, y) == background_for(*game, x, y),
        forall|x: int, y: int|
            old(con).in_bounds(x, y) ==> final(con).spec_fg(x, y) == glyphs_after(
                objects@,
                old(con).spec_fg(x, y),
                x,
                y,
            ),
{
    let ghost f0 = *con;
    let mut i: usize = 0;
    while i < objects.len()
        invariant
            con.wf(),
            con.spec_width() == f0.spec_width(),
            con.spec_height() == f0.spec_height(),
            f0.spec_width() == game.spec_width(),
            f0.spec_height() == game.spec_height(),
            i <= objects@.len(),
            forall|j: int|
                0 <= j < objects@.len() ==> game.in_bounds(
                    objects@[j].x as int,
                    objects@[j].y as int,
                ),
            forall|x: int, y: int|
                f0.in_bounds(x, y) ==> con.spec_fg(x, y) == glyphs_after(
                    objects@.take(i as int),
                    f0.spec_fg(x, y),
                    x,
                    y,
                ),
            forall|x: int, y: int| f0.in_bounds(x, y) ==> con.spec_bg(x, y) == f0.spec_bg(x, y),
        decreases objects@.len() - i,
    {
        let obj = vstd::slice::slice_index_get(objects, i);
        obj.draw(con);
        proof {
            assert forall|x: int, y: int| f0.in_bounds(x, y) implies con.spec_fg(x, y)
                == glyphs_after(objects@.take(i + 1), f0.spec_fg(x, y), x, y) by {
                let s = objects@.take(i + 1);
                assert(s.last() == objects@[i as int]);
                assert(s.drop_last() =~= objects@.take(i as int));
            }
        }
        i += 1;
    }
    let ghost f1 = *con;
    let width = con.width();
    let height = con.height();
    let mut y: usize = 0;
    while y < height
        invariant
            con.wf(),
            con.spec_width() == f1.spec_width(),
            con.spec_height() == f1.spec_height(),
            f1.spec_width() == game.spec_width(),
            f1.spec_height() == game.spec_height(),
            game.wf(),
            width == f1.spec_width(),
            height == f1.spec_height(),
            y <= height,
            forall|xx: int, yy: int|
                f1.in_bounds(xx, yy) ==> con.spec_fg(xx, yy) == f1.spec_fg(xx, yy),
            forall|xx: int, yy: int|
                f1.in_bounds(xx, yy) ==> con.spec_bg(xx, yy) == (if yy < y {
                    background_for(*game, xx, yy)
                } else {
                    f1.spec_bg(xx, yy)
                }),
        decreases height - y,
    {
        let mut x: usize = 0;
        while x < width
            invariant
                con.wf(),
                con.spec_width() == f1.spec_width(),
                con.spec_height() == f1.spec_height(),
                f1.spec_width() == game.spec_width(),
                f1.spec_height() == game.spec_height(),
                game.wf(),
                width == f1.spec_width(),
                height == f1.spec_height(),
                y < height,
                x <= width,
                forall|xx: int, yy: int|
                    f1.in_bounds(xx, yy) ==> con.spec_fg(xx, yy) == f1.spec_fg(xx, yy),
                forall|xx: int, yy: int|
                    f1.in_bounds(xx, yy) ==> con.spec_bg(xx, yy) == (if yy < y || (yy == y && xx
                        < x) {
                        background_for(*game, xx, yy)
                    } else {
                        f1.spec_bg(xx, yy)
                    }),
            decreases width - x,
        {
            proof {
                crate::grid::lemma_wf_bounds(game.spec_map());
            }
            let wall = game.tile_at(x as i32, y as i32).block_sight;
            if wall {
                con.set_background(x, y, color_dark_wall());
            } else {
                con.set_background(x, y, color_dark_ground());
            }
            x += 1;
        }
        y += 1;
    }
    proof {
        assert forall|x: int, y: int| f0.in_bounds(x, y) implies con.spec_bg(x, y)
            == background_for(*game, x, y) by {
            assert(f1.in_bounds(x, y));
        }
        assert forall|x: int, y: int| f0.in_bounds(x, y) implies con.spec_fg(x, y) == glyphs_after(
            objects@,
            f0.spec_fg(x, y),
            x,
            y,
        ) by {
            assert(objects@.take(objects@.len() as int) =~= objects@);
        }
    }
}

} // verus!
