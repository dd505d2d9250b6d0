//! Plain-value stand-ins for externally defined inputs to buffer creation.

use vstd::prelude::*;

verus! {

/// Four-character pixel-format tag: an opaque 32-bit code identifying pixel
/// layout and encoding. It is carried through unmodified and never
/// interpreted by this layer.
#[derive(Clone, Copy, Debug, PartialEq, Eq, Structural)]
pub struct FourCharCode {
    /// The packed 32-bit tag value.
    pub code: u32,
}

impl FourCharCode {
    /// Wraps a packed 32-bit tag value.
    pub fn new(code: u32) -> (r: Self)
        ensures
            r.code == code,
    {
        FourCharCode { code }
    }
}

/// A hardware-backed shared surface, seen by this layer as plain geometry
/// values. Its memory is owned by the producing device: a buffer created
/// over a surface has no CPU-addressable base address through this layer.
#[derive(Clone, Copy, Debug, PartialEq, Eq, Structural)]
pub struct IOSurface {
    /// Width of the surface in pixels.
    pub width: u32,
    /// Height of the surface in pixels.
    pub height: u32,
    /// Row stride of the surface in bytes.
    pub bytes_per_row: u32,
    /// Pixel-format tag of the surface.
    pub format: FourCharCode,
}

impl IOSurface {
    /// Describes a surface by its geometry and format.
    pub fn new(width: u32, height: u32, bytes_per_row: u32, format: FourCharCode) -> (r: Self)
        ensures
            r == (IOSurface { width, height, bytes_per_row, format }),
    {
        IOSurface { width, height, bytes_per_row, format }
    }
}

} // verus!
