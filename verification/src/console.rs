//! The per-frame draw buffer: a background tint and an optional foreground
//! glyph per cell, two independent visual channels over the same region.
//! The shell copies a composed frame to the display surface at 1:1 scale;
//! nothing here touches a window.

use vstd::prelude::*;

use crate::color::Color;
use crate::color::black_spec;
use crate::color::color_black;
use crate::grid::lemma_cell_index_bound;
use crate::grid::lemma_cell_index_injective;

verus! {

/// A drawn character together with its foreground color.
#[derive(Clone, Copy, PartialEq, Eq, Structural, Debug)]
pub struct Glyph {
    pub ch: char,
    pub color: Color,
}

/// An offscreen frame buffer, cleared and repopulated once per frame.
/// Setting a cell's background does not erase a drawn glyph, and drawing a
/// glyph does not erase the background tint.
pub struct Frame {
    width: usize,
    height: usize,
    bg: Vec<Color>,
    fg: Vec<Option<Glyph>>,
}

impl Frame {
    pub closed spec fn spec_width(self) -> int {
        self.width as int
    }

    pub closed spec fn spec_height(self) -> int {
        self.height as int
    }

    /// Both layers hold exactly one slot per cell, and the dimensions stay
    /// addressable by `i32` coordinates.
    pub closed spec fn wf(self) -> bool {
        &&& self.bg@.len() == self.spec_width() * self.spec_height()
        &&& self.fg@.len() == self.spec_width() * self.spec_height()
        &&& self.spec_width() * self.spec_height() <= usize::MAX
        &&& self.spec_width() <= 0x7fff_ffff
        &&& self.spec_height() <= 0x7fff_ffff
    }

    /// The background tint at cell `(x, y)`.
    pub closed spec fn spec_bg(self, x: int, y: int) -> Color {
        self.bg@[x * self.spec_height() + y]
    }

    /// The foreground glyph at cell `(x, y)`, if one was drawn this frame.
    pub closed spec fn spec_fg(self, x: int, y: int) -> Option<Glyph> {
        self.fg@[x * self.spec_height() + y]
    }

    pub open spec fn in_bounds(self, x: int, y: int) -> bool {
        0 <= x < self.spec_width() && 0 <= y < self.spec_height()
    }

    /// No glyph anywhere and every background reset to black: the state a
    /// fresh or freshly cleared buffer is in.
    pub open spec fn cleared(self) -> bool {
        forall|x: int, y: int|
            self.in_bounds(x, y) ==> self.spec_bg(x, y) == black_spec() && self.spec_fg(
                x,
                y,
            ) is None
    }

    pub fn new(width: usize, height: usize) -> (f: Frame)
        requires
            width <= 0x7fff_ffff,
            height <= 0x7fff_ffff,
            width * height <= usize::MAX,
        ensures
            f.wf(),
            f.spec_width() == width,
            f.spec_height() == height,
            f.cleared(),
    {
        let total = width * height;
        let mut bg: Vec<Color> = Vec::new();
        let mut fg: Vec<Option<Glyph>> = Vec::new();
        let mut i: usize = 0;
        while i < total
            invariant
                i <= total,
                bg@.len() == i,
                fg@.len() == i,
                forall|j: int| 0 <= j < i ==> bg@[j] == black_spec() && fg@[j] is None,
            decreases total - i,
        {
            bg.push(color_black());
            fg.push(Option::None);
            i += 1;
        }
        let f = Frame { width, height, bg, fg };
        proof {
            assert forall|x: int, y: int| f.in_bounds(x, y) implies f.spec_bg(x, y) == black_spec()
                && f.spec_fg(x, y) is None by {
                lemma_cell_index_bound(x, y, width as int, height as int);
            }
        }
        f
    }

    pub fn width(&self) -> (w: usize)
        ensures
            w == self.spec_width(),
    {
        self.width
    }

    pub fn height(&self) -> (h: usize)
        ensures
            h == self.spec_height(),
    {
        self.height
    }

    /// Reset the buffer for the next frame: drop every glyph and repaint
    /// every background black, keeping the dimensions.
    pub fn clear(&mut self)
        requires
            old(self).wf(),
        ensures
            final(self).wf(),
            final(self).spec_width() == old(self).spec_width(),
            final(self).spec_height() == old(self).spec_height(),
            final(self).cleared(),
    {
        let fresh = Frame::new(self.width, self.height);
        self.bg = fresh.bg;
        self.fg = fresh.fg;
    }

    /// Tint one cell's background, touching no glyph and no other cell.
    pub(crate) fn set_background(&mut self, x: usize, y: usize, c: Color)
        requires
            old(self).wf(),
            old(self).in_bounds(x as int, y as int),
        ensures
            final(self).wf(),
            final(self).spec_width() == old(self).spec_width(),
            final(self).spec_height() == old(self).spec_height(),
            final(self).spec_bg(x as int, y as int) == c,
            forall|xx: int, yy: int|
                old(self).in_bounds(xx, yy) && !(xx == x as int && yy == y as int)
                    ==> final(self).spec_bg(xx, yy) == old(self).spec_bg(xx, yy),
            forall|xx: int, yy: int|
                old(self).in_bounds(xx, yy) ==> final(self).spec_fg(xx, yy) == old(self).spec_fg(
                    xx,
                    yy,
                ),
    {
        proof {
            lemma_cell_index_bound(x as int, y as int, self.spec_width(), self.spec_height());
        }
        let idx = x * self.height + y;
        self.bg.set(idx, c);
        proof {
            self.lemma_other_cells_unaffected(*old(self), x as int, y as int);
        }
    }

    /// Put one glyph at a cell, touching no background and no other cell.
    pub(crate) fn set_glyph(&mut self, x: usize, y: usize, g: Glyph)
        requires
            old(self).wf(),
            old(self).in_bounds(x as int, y as int),
        ensures
            final(self).wf(),
            final(self).spec_width() == old(self).spec_width(),
            final(self).spec_height() == old(self).spec_height(),
            final(self).spec_fg(x as int, y as int) == Option::Some(g),
            forall|xx: int, yy: int|
                old(self).in_bounds(xx, yy) && !(xx == x as int && yy == y as int)
                    ==> final(self).spec_fg(xx, yy) == old(self).spec_fg(xx, yy),
            forall|xx: int, yy: int|
                old(self).in_bounds(xx, yy) ==> final(self).spec_bg(xx, yy) == old(self).spec_bg(
                    xx,
                    yy,
                ),
    {
        proof {
            lemma_cell_index_bound(x as int, y as int, self.spec_width(), self.spec_height());
        }
        let idx = x * self.height + y;
        self.fg.set(idx, Option::Some(g));
        proof {
            self.lemma_other_cells_unaffected(*old(self), x as int, y as int);
        }
    }

    /// After one slot of either layer changed, every other cell reads the
    /// same as before, because distinct cells use distinct slots.
    proof fn lemma_other_cells_unaffected(self, prev: Frame, x: int, y: int)
        requires
            self.spec_width() == prev.spec_width(),
            self.spec_height() == prev.spec_height(),
            prev.wf(),
            prev.in_bounds(x, y),
            self.bg@.len() == prev.bg@.len(),
            self.fg@.len() == prev.fg@.len(),
            forall|j: int|
                0 <= j < prev.bg@.len() && j != x * prev.spec_height() + y ==> self.bg@[j]
                    == prev.bg@[j],
            forall|j: int|
                0 <= j < prev.fg@.len() && j != x * prev.spec_height() + y ==> self.fg@[j]
                    == prev.fg@[j],
        ensures
            forall|xx: int, yy: int|
                prev.in_bounds(xx, yy) && !(xx == x && yy == y) ==> self.spec_bg(xx, yy)
                    == prev.spec_bg(xx, yy) && self.spec_fg(xx, yy) == prev.spec_fg(xx, yy),
    {
        assert forall|xx: int, yy: int|
            prev.in_bounds(xx, yy) && !(xx == x && yy == y) implies self.spec_bg(xx, yy)
            == prev.spec_bg(xx, yy) && self.spec_fg(xx, yy) == prev.spec_fg(xx, yy) by {
            lemma_cell_index_bound(xx, yy, prev.spec_width(), prev.spec_height());
            if xx * prev.spec_height() + yy == x * prev.spec_height() + y {
                lemma_cell_index_injective(xx, yy, x, y, prev.spec_height());
            }
        }
    }

    /// Read the composed buffer's background tint back at one cell.
    pub fn background_at(&self, x: i32, y: i32) -> (c: Color)
        requires
            self.wf(),
            self.in_bounds(x as int, y as int),
        ensures
            c == self.spec_bg(x as int, y as int),
    {
        proof {
            lemma_cell_index_bound(x as int, y as int, self.spec_width(), self.spec_height());
        }
        let idx = (x as usize) * self.height + (y as usize);
        self.bg[idx]
    }

    /// Read the composed buffer's foreground glyph back at one cell.
    pub fn glyph_at(&self, x: i32, y: i32) -> (g: Option<Glyph>)
        requires
            self.wf(),
            self.in_bounds(x as int, y as int),
        ensures
            g == self.spec_fg(x as int, y as int),
    {
        proof {
            lemma_cell_index_bound(x as int, y as int, self.spec_width(), self.spec_height());
        }
        let idx = (x as usize) * self.height + (y as usize);
        self.fg[idx]
    }
}

} // verus!
