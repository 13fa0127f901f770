//! Layer compositing and palette remapping for layered character sprites.
//!
//! A character is a stack of independently placed layer images whose flat
//! index colours are remapped to the character's chosen palette before the
//! layers are flattened into one bitmap.

pub mod asset;
pub mod character;
pub mod export;
pub mod extensions;
pub mod file_io;
pub mod library;
pub mod random;
pub mod raster;
pub mod recolour;
pub mod types;
