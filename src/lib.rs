//! Hexagonal grid coordinates: cube, axial and offset forms, with the
//! integer arithmetic and conversions between them.
pub mod axial;
pub mod cube;
pub mod offset;

pub use cube::{Axis, Hex, HexError};
pub use offset::Offset;

