//! Caller-supplied planar backing memory.

use vstd::prelude::*;

verus! {

/// One plane of caller-supplied planar memory: its row stride and its bytes.
/// The addressable window of a plane is the first `bytes_per_row * height`
/// bytes, where `height` is the owning buffer's height.
#[derive(Debug)]
pub struct PlaneDescriptor {
    /// Row stride of this plane in bytes.
    pub bytes_per_row: u32,
    /// Backing bytes of this plane.
    pub data: Vec<u8>,
}

impl PlaneDescriptor {
    /// Wraps one plane's stride and bytes.
    pub fn new(bytes_per_row: u32, data: Vec<u8>) -> (r: Self)
        ensures
            r.bytes_per_row == bytes_per_row,
            r.data == data,
    {
        PlaneDescriptor { bytes_per_row, data }
    }
}

/// Caller-supplied planar backing memory: one descriptor per plane, ordered
/// by plane index.
#[derive(Debug)]
pub struct PlanarDataPointer {
    /// The planes, ordered by plane index.
    pub planes: Vec<PlaneDescriptor>,
}

impl PlanarDataPointer {
    /// Wraps a set of planes.
    pub fn new(planes: Vec<PlaneDescriptor>) -> (r: Self)
        ensures
            r.planes == planes,
    {
        PlanarDataPointer { planes }
    }
}

} // verus!
