//! Error type and the status-code translation layer.
//!
//! The native pixel-buffer interface reports outcomes as signed 32-bit status
//! codes: zero means success, and the recognized failure codes lie in one
//! contiguous negative range. Every failure is translated into a typed
//! [`CVPixelBufferError`] by a pure, total mapping with an explicit fallback
//! for codes outside the recognized table.

use vstd::prelude::*;

verus! {

/// Status code meaning success.
pub const CV_RETURN_SUCCESS: i32 = 0;
/// Generic failure status; also the first (largest) recognized failure code.
pub const CV_RETURN_ERROR: i32 = -6660;
/// An argument was invalid.
pub const CV_RETURN_INVALID_ARGUMENT: i32 = -6661;
/// Backing memory could not be allocated.
pub const CV_RETURN_ALLOCATION_FAILED: i32 = -6662;
/// The pixel format tag was rejected.
pub const CV_RETURN_INVALID_PIXEL_FORMAT: i32 = -6680;
/// The requested dimensions were rejected.
pub const CV_RETURN_INVALID_SIZE: i32 = -6681;
/// Last (smallest) recognized failure code.
pub const CV_RETURN_LAST: i32 = -6699;

/// A failure surfaced by this layer. Every public operation returns a
/// `Result`; no operation panics on a native-layer failure.
#[derive(Clone, Copy, Debug, PartialEq, Eq, Structural)]
pub enum CVPixelBufferError {
    /// A lock or unlock call returned a non-success status; the code is kept
    /// for diagnostics.
    LockFailure(i32),
    /// An address query found no addressable memory behind a locked buffer.
    BaseAddress,
    /// A creation call returned a non-success status or an allocation failed.
    CreationFailure(i32),
    /// A status code outside the recognized mapping table.
    UnknownStatus(i32),
}

/// True for status codes inside the recognized failure-code table.
pub open spec fn spec_is_recognized_status(status: i32) -> bool {
    CV_RETURN_LAST <= status <= CV_RETURN_ERROR
}

/// The error a failed lock or unlock call maps to.
pub open spec fn spec_lock_error(status: i32) -> CVPixelBufferError {
    if spec_is_recognized_status(status) {
        CVPixelBufferError::LockFailure(status)
    } else {
        CVPixelBufferError::UnknownStatus(status)
    }
}

/// The error a failed creation call maps to.
pub open spec fn spec_creation_error(status: i32) -> CVPixelBufferError {
    if spec_is_recognized_status(status) {
        CVPixelBufferError::CreationFailure(status)
    } else {
        CVPixelBufferError::UnknownStatus(status)
    }
}

/// Translates the status of a failed lock or unlock call into an error.
/// Total over the integer domain; callers consult it for non-success codes.
pub fn lock_error_from_status(status: i32) -> (r: CVPixelBufferError)
    ensures
        r == spec_lock_error(status),
{
    if CV_RETURN_LAST <= status && status <= CV_RETURN_ERROR {
        CVPixelBufferError::LockFailure(status)
    } else {
        CVPixelBufferError::UnknownStatus(status)
    }
}

/// Translates the status of a failed creation call into an error.
/// Total over the integer domain; callers consult it for non-success codes.
pub fn creation_error_from_status(status: i32) -> (r: CVPixelBufferError)
    ensures
        r == spec_creation_error(status),
{
    if CV_RETURN_LAST <= status && status <= CV_RETURN_ERROR {
        CVPixelBufferError::CreationFailure(status)
    } else {
        CVPixelBufferError::UnknownStatus(status)
    }
}

} // verus!
