//! The cached artifact.

use vstd::prelude::*;

verus! {

/// The geometry and metadata of one set of tiles.
///
/// A cache never looks inside a tileset: it only stores it behind a shared
/// handle and hands that handle out.
#[derive(Debug, PartialEq, Eq)]
pub struct Tileset {
    /// The name the tileset goes by.
    pub name: String,
    /// The width of one tile, in pixels.
    pub tile_width: u32,
    /// The height of one tile, in pixels.
    pub tile_height: u32,
    /// The gap between neighbouring tiles in the image, in pixels.
    pub spacing: u32,
    /// The border around the tiles in the image, in pixels.
    pub margin: u32,
    /// How many tiles the set holds.
    pub tilecount: u32,
    /// How many tiles stand in one row of the image.
    pub columns: u32,
}

} // verus!
