//! Plain RGB color values and the fixed palette the renderer uses.

use vstd::prelude::*;

verus! {

/// An RGB color, one byte per channel.
#[derive(Clone, Copy, PartialEq, Eq, Structural, Debug)]
pub struct Color {
    pub r: u8,
    pub g: u8,
    pub b: u8,
}

/// Background tint of a sight-blocking (wall) cell.
pub open spec fn dark_wall_spec() -> Color {
    Color { r: 0, g: 0, b: 100 }
}

/// Background tint of every other cell.
pub open spec fn dark_ground_spec() -> Color {
    Color { r: 50, g: 50, b: 150 }
}

/// The color a cleared frame buffer's backgrounds reset to.
pub open spec fn black_spec() -> Color {
    Color { r: 0, g: 0, b: 0 }
}

pub fn color_dark_wall() -> (c: Color)
    ensures
        c == dark_wall_spec(),
{
    Color { r: 0, g: 0, b: 100 }
}

pub fn color_dark_ground() -> (c: Color)
    ensures
        c == dark_ground_spec(),
{
    Color { r: 50, g: 50, b: 150 }
}

pub fn color_black() -> (c: Color)
    ensures
        c == black_spec(),
{
    Color { r: 0, g: 0, b: 0 }
}

pub fn color_white() -> (c: Color)
    ensures
        c == (Color { r: 255, g: 255, b: 255 }),
{
    Color { r: 255, g: 255, b: 255 }
}

pub fn color_yellow() -> (c: Color)
    ensures
        c == (Color { r: 255, g: 255, b: 0 }),
{
    Color { r: 255, g: 255, b: 0 }
}

} // verus!
