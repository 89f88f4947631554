//! Fixed-point scene geometry: points and colors as plain integers.

use vstd::prelude::*;

verus! {

/// A point in scene space. Coordinates are in hundredths of a scene unit,
/// so `Point3 { x: -15, y: 100, z: -200 }` stands for (-0.15, 1.00, -2.00).
#[derive(Clone, Copy, Debug, PartialEq, Eq, Structural)]
pub struct Point3 {
    pub x: i32,
    pub y: i32,
    pub z: i32,
}

/// An RGB color; each channel is in hundredths of full intensity,
/// so `ColorRgb { r: 50, g: 10, b: 0 }` stands for (0.50, 0.10, 0.00).
#[derive(Clone, Copy, Debug, PartialEq, Eq, Structural)]
pub struct ColorRgb {
    pub r: u8,
    pub g: u8,
    pub b: u8,
}

} // verus!
