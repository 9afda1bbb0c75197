//! A positioned, drawable actor: position, glyph, color, and the one rule
//! of movement — a move commits only onto an unblocked tile.

use vstd::prelude::*;

use crate::color::Color;
use crate::console::Frame;
use crate::console::Glyph;
use crate::game::Game;

verus! {

/// A drawable actor on the grid. All entities share this one shape; the
/// core has no behavioral differentiation between entity kinds beyond data.
#[derive(Clone, Copy, PartialEq, Eq, Structural, Debug)]
pub struct Object {
    pub x: i32,
    pub y: i32,
    pub glyph: char,
    pub color: Color,
}

impl Object {
    /// How one movement attempt relates `before` to `after`: the candidate
    /// cell `(x + dx, y + dy)` is entered exactly when its tile is not
    /// blocked; a blocked destination leaves the object untouched, silently.
    pub open spec fn moved(game: Game, before: Object, after: Object, dx: int, dy: int) -> bool {
        &&& after.glyph == before.glyph
        &&& after.color == before.color
        &&& if game.spec_tile(before.x + dx, before.y + dy).blocked {
            after == before
        } else {
            after.x == before.x + dx && after.y == before.y + dy
        }
    }

    pub fn new(x: i32, y: i32, glyph: char, color: Color) -> (o: Object)
        ensures
            o == (Object { x, y, glyph, color }),
    {
        Object { x, y, glyph, color }
    }

    /// Attempt to move by `(dx, dy)`. The destination tile decides: if it
    /// is blocked the position is unchanged and no error is raised. Callers
    /// must keep the candidate cell inside the grid; an out-of-bounds
    /// candidate is a programming error, excluded by contract.
    pub fn move_by(&mut self, game: &Game, dx: i32, dy: i32)
        requires
            game.wf(),
            game.in_bounds(old(self).x + dx, old(self).y + dy),
        ensures
            Object::moved(*game, *old(self), *final(self), dx as int, dy as int),
    {
        proof {
            crate::grid::lemma_wf_bounds(game.spec_map());
        }
        let x = self.x + dx;
        let y = self.y + dy;
        if !game.tile_at(x, y).blocked {
            self.x = x;
            self.y = y;
        }
    }

    /// The glyph cell this object paints when drawn.
    pub open spec fn spec_glyph(self) -> Glyph {
        Glyph { ch: self.glyph, color: self.color }
    }

    /// Draw this object's glyph in its color at its cell of the frame
    /// buffer, leaving every background tint and every other cell's glyph
    /// untouched.
    pub fn draw(&self, con: &mut Frame)
        requires
            old(con).wf(),
            old(con).in_bounds(self.x as int, self.y as int),
        ensures
            final(con).wf(),
            final(con).spec_width() == old(con).spec_width(),
            final(con).spec_height() == old(con).spec_height(),
            final(con).spec_fg(self.x as int, self.y as int) == Option::Some(self.spec_glyph()),
            forall|xx: int, yy: int|
                old(con).in_bounds(xx, yy) && !(xx == self.x as int && yy == self.y as int)
                    ==> final(con).spec_fg(xx, yy) == old(con).spec_fg(xx, yy),
            forall|xx: int, yy: int|
                old(con).in_bounds(xx, yy) ==> final(con).spec_bg(xx, yy) == old(con).spec_bg(
                    xx,
                    yy,
                ),
    {
        con.set_glyph(self.x as usize, self.y as usize, Glyph { ch: self.glyph, color: self.color });
    }
}

/// A rejected move is a no-op: whenever the destination tile is blocked,
/// the object after the attempt equals the object before it — so any number
/// of repeated attempts against that destination leaves it unchanged.
pub proof fn lemma_move_rejected_is_noop(
    game: Game,
    before: Object,
    after: Object,
    dx: int,
    dy: int,
)
    requires
        game.spec_tile(before.x + dx, before.y + dy).blocked,
        Object::moved(game, before, after, dx, dy),
    ensures
        after == before,
{
}

/// An accepted move lands exactly on the candidate cell: whenever the
/// destination tile is unblocked, the position after the attempt is
/// precisely `(x + dx, y + dy)`.
pub proof fn lemma_move_accepted_is_exact(
    game: Game,
    before: Object,
    after: Object,
    dx: int,
    dy: int,
)
    requires
        !game.spec_tile(before.x + dx, before.y + dy).blocked,
        Object::moved(game, before, after, dx, dy),
    ensures
        after.x == before.x + dx,
        after.y == before.y + dy,
        after.glyph == before.glyph,
        after.color == before.color,
{
}

} // verus!
