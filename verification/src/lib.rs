//! A verified core for a minimal turn-based grid-world game: a tile map is
//! carved into rooms and tunnels, entities occupy integer grid cells, and a
//! frame loop composes map background and entity glyphs into a buffer while
//! translating key events into moves or commands. Windowing, glyph drawing
//! and key polling are an outside capability that a thin shell supplies.

pub mod color;
pub mod console;
pub mod control;
pub mod game;
pub mod grid;
pub mod mapgen;
pub mod object;
pub mod render;
pub mod tile;
