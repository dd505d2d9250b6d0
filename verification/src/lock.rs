//! Lock modes and the per-buffer lock state.
//!
//! A buffer's memory is addressable only inside a lock/unlock bracket:
//! `Unlocked -> Locked(mode) -> Unlocked`. The mode declares the intent at
//! lock time; mutable views additionally demand a read-write lock.

use vstd::prelude::*;

verus! {

/// Lock mode declared when locking a buffer's base address.
#[derive(Clone, Copy, Debug, PartialEq, Eq, Structural)]
pub enum CVPixelBufferLockFlags {
    /// Memory may be read and written while locked.
    ReadWrite,
    /// Memory may only be read while locked.
    ReadOnly,
}

impl CVPixelBufferLockFlags {
    /// The 32-bit value this mode maps to on the native interface.
    pub open spec fn spec_wire_value(self) -> u32 {
        match self {
            CVPixelBufferLockFlags::ReadWrite => 0x0,
            CVPixelBufferLockFlags::ReadOnly => 0x1,
        }
    }

    /// Returns the 32-bit value passed verbatim to the native lock primitive.
    pub fn wire_value(self) -> (r: u32)
        ensures
            r == self.spec_wire_value(),
    {
        match self {
            CVPixelBufferLockFlags::ReadWrite => 0x0,
            CVPixelBufferLockFlags::ReadOnly => 0x1,
        }
    }
}

/// Lock state of one buffer: byte views are valid only in `Locked`.
#[derive(Clone, Copy, Debug, PartialEq, Eq, Structural)]
pub enum LockState {
    /// No lock is held; the buffer's memory is not addressable.
    Unlocked,
    /// A lock is held with the recorded mode.
    Locked(CVPixelBufferLockFlags),
}

} // verus!
