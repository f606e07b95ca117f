//! A cache that hands out shared, immutable tilesets by the path they were
//! loaded from, so that each path is loaded at most once.
//!
//! The contracts speak of a cache through its view: the map from path text to
//! the handle held under it.

pub mod cache;
pub mod laws;
pub mod tileset;

pub use cache::{FilesystemResourceCache, ResourceCache, ResourcePath, ResourcePathBuf};
pub use tileset::Tileset;
