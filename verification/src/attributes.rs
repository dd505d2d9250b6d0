//! Creation attributes.
//!
//! Attribute-dictionary construction is outside this layer's scope: the
//! attributes value is accepted by every creation path and passed through
//! without being read.

use vstd::prelude::*;

verus! {

/// Opaque creation attributes, carried through buffer creation unread.
#[derive(Clone, Copy, Debug, Default, PartialEq, Eq, Structural)]
pub struct PixelBufferAttributes {}

impl PixelBufferAttributes {
    /// An empty attribute set.
    pub fn new() -> (r: Self)
        ensures
            r == (PixelBufferAttributes {}),
    {
        PixelBufferAttributes {}
    }
}

} // verus!
