//! Lifetime guards for buffers over caller-supplied memory.
//!
//! A guard pairs such a buffer with a one-shot release callback. The
//! callback runs exactly once over the pairing's whole lifecycle: only
//! [`CVPixelBufferWithLifetime::release`] (or its planar counterpart)
//! invokes it, consuming the guard and the buffer, and handing the backing
//! memory back to the callback. Before that the callback cannot run, since
//! the guard owns it.

use vstd::prelude::*;

use crate::attributes::PixelBufferAttributes;
use crate::error::CVPixelBufferError;
use crate::error::CV_RETURN_INVALID_SIZE;
use crate::lock::LockState;
use crate::pixel_buffer::spec_valid_bytes_layout;
use crate::pixel_buffer::spec_valid_planar_layout;
use crate::pixel_buffer::CVPixelBuffer;
use crate::pixel_buffer::PixelBufferView;
use crate::planar_data::PlanarDataPointer;
use crate::planar_data::PlaneDescriptor;
use crate::types::FourCharCode;

verus! {

/// A buffer over caller-supplied non-planar memory, paired with its one-shot
/// release callback.
pub struct CVPixelBufferWithLifetime<F> where F: FnOnce(Vec<u8>) {
    /// The buffer.
    pub buffer: CVPixelBuffer,
    /// The one-shot release callback; invoked only by `release`.
    pub release_callback: F,
}

impl<F> CVPixelBufferWithLifetime<F> where F: FnOnce(Vec<u8>) {
    /// Ends the pairing's lifecycle: consumes the guard and the buffer and
    /// invokes the release callback exactly once, handing it back the
    /// buffer's backing memory.
    pub fn release(self)
        requires
            forall|v: Vec<u8>| call_requires(self.release_callback, (v,)),
        ensures
            exists|v: Vec<u8>|
                v@ == self.buffer@.data && call_ensures(self.release_callback, (v,), ()),
    {
        let CVPixelBufferWithLifetime { buffer, release_callback } = self;
        let bytes = buffer.into_data();
        release_callback(bytes);
    }
}

/// A buffer over caller-supplied planar memory, paired with its one-shot
/// release callback.
pub struct CVPixelBufferWithPlanarLifetime<F> where F: FnOnce(PlanarDataPointer) {
    /// The buffer.
    pub buffer: CVPixelBuffer,
    /// The one-shot release callback; invoked only by `release`.
    pub release_callback: F,
}

impl<F> CVPixelBufferWithPlanarLifetime<F> where F: FnOnce(PlanarDataPointer) {
    /// Ends the pairing's lifecycle: consumes the guard and the buffer and
    /// invokes the release callback exactly once, handing it back the
    /// buffer's planes.
    pub fn release(self)
        requires
            forall|p: PlanarDataPointer| call_requires(self.release_callback, (p,)),
        ensures
            exists|p: PlanarDataPointer|
                p.planes@ == self.buffer@.planes && call_ensures(self.release_callback, (p,), ()),
    {
        let CVPixelBufferWithPlanarLifetime { buffer, release_callback } = self;
        let planes = buffer.into_planes();
        release_callback(PlanarDataPointer::new(planes));
    }
}

impl CVPixelBuffer {
    /// As [`CVPixelBuffer::create_with_bytes`], and additionally pairs the
    /// buffer with a release callback that will receive the memory back.
    /// On failure nothing is constructed and the callback is never invoked.
    pub fn create_with_bytes_release_cb<F>(
        width: u32,
        height: u32,
        pixel_format_type: FourCharCode,
        base_address: Vec<u8>,
        bytes_per_row: u32,
        release_callback: F,
        pixel_buffer_attributes: PixelBufferAttributes,
    ) -> (r: Result<CVPixelBufferWithLifetime<F>, CVPixelBufferError>) where F: FnOnce(Vec<u8>)
        ensures
            spec_valid_bytes_layout(width, height, bytes_per_row, base_address@.len()) ==> (
            r matches Ok(g) && g.buffer@.wf() && g.buffer@ == (PixelBufferView {
                width,
                height,
                format: pixel_format_type,
                bytes_per_row,
                planes: Seq::<PlaneDescriptor>::empty(),
                data: base_address@,
                addressable: true,
                lock_state: LockState::Unlocked,
            }) && g.release_callback == release_callback),
            !spec_valid_bytes_layout(width, height, bytes_per_row, base_address@.len()) ==> (
            r matches Err(e) && e == CVPixelBufferError::CreationFailure(CV_RETURN_INVALID_SIZE)),
    {
        match CVPixelBuffer::create_with_bytes(
            width,
            height,
            pixel_format_type,
            base_address,
            bytes_per_row,
            pixel_buffer_attributes,
        ) {
            Ok(buffer) => Ok(CVPixelBufferWithLifetime { buffer, release_callback }),
            Err(e) => Err(e),
        }
    }

    /// As [`CVPixelBuffer::create_with_planar_bytes`], and additionally
    /// pairs the buffer with a release callback that will receive the planes
    /// back. On failure nothing is constructed and the callback is never
    /// invoked.
    pub fn create_with_planar_bytes_release_cb<F>(
        width: u32,
        height: u32,
        pixel_format_type: FourCharCode,
        data_pointer: PlanarDataPointer,
        release_callback: F,
        pixel_buffer_attributes: PixelBufferAttributes,
    ) -> (r: Result<CVPixelBufferWithPlanarLifetime<F>, CVPixelBufferError>) where
        F: FnOnce(PlanarDataPointer),

        ensures
            spec_valid_planar_layout(width, height, data_pointer.planes@) ==> (r matches Ok(g)
                && g.buffer@.wf() && g.buffer@ == (PixelBufferView {
                width,
                height,
                format: pixel_format_type,
                bytes_per_row: 0,
                planes: data_pointer.planes@,
                data: Seq::<u8>::empty(),
                addressable: true,
                lock_state: LockState::Unlocked,
            }) && g.release_callback == release_callback),
            !spec_valid_planar_layout(width, height, data_pointer.planes@) ==> (r matches Err(e)
                && e == CVPixelBufferError::CreationFailure(CV_RETURN_INVALID_SIZE)),
    {
        match CVPixelBuffer::create_with_planar_bytes(
            width,
            height,
            pixel_format_type,
            data_pointer,
            pixel_buffer_attributes,
        ) {
            Ok(buffer) => Ok(CVPixelBufferWithPlanarLifetime { buffer, release_callback }),
            Err(e) => Err(e),
        }
    }
}

} // verus!
