//! Decoder for the binary tileset metadata of a tile-based map: a little-endian
//! header, two stacked layers of cells and one block of per-cell trigger codes,
//! together with the lookup of the three texture sheets that belong to it.

pub mod asset;
pub mod direction;
pub mod error;
pub mod game;
pub mod layout;
pub mod movement;
pub mod paths;
pub mod player_one;
pub mod reader;
pub mod text;
pub mod texture;
pub mod tileset;
pub mod trigger;
