//! The pixel-buffer handle: geometry queries, the lock protocol, byte views,
//! and the creation paths.
//!
//! A buffer's observable state is its [`PixelBufferView`]: geometry, backing
//! bytes, addressability, and lock state. Byte views are handed out only
//! while the buffer is locked, and mutable views only under a read-write
//! lock; both obligations are stated as preconditions, so holding them is
//! checked at every call site instead of being left to the native layer.

use vstd::prelude::*;
use vstd::slice::slice_subrange;

use crate::attributes::PixelBufferAttributes;
use crate::error::CVPixelBufferError;
use crate::error::CV_RETURN_ALLOCATION_FAILED;
use crate::error::CV_RETURN_INVALID_SIZE;
use crate::lock::CVPixelBufferLockFlags;
use crate::lock::LockState;
use crate::planar_data::PlanarDataPointer;
use crate::planar_data::PlaneDescriptor;
use crate::types::FourCharCode;
use crate::types::IOSurface;

verus! {

/// Mathematical view of a pixel buffer: its geometry, planes, backing bytes,
/// addressability, and lock state.
#[verifier::ext_equal]
pub ghost struct PixelBufferView {
    /// Width in pixels.
    pub width: u32,
    /// Height in pixels.
    pub height: u32,
    /// Opaque pixel-format tag.
    pub format: FourCharCode,
    /// Row stride of the whole (non-planar) buffer in bytes; zero for
    /// planar buffers, where each plane carries its own stride.
    pub bytes_per_row: u32,
    /// The planes of a planar buffer; empty for non-planar buffers.
    pub planes: Seq<PlaneDescriptor>,
    /// Backing bytes of a non-planar buffer; empty for planar or
    /// surface-backed buffers.
    pub data: Seq<u8>,
    /// Whether the backing memory is CPU-addressable; false for buffers
    /// backed by a hardware surface.
    pub addressable: bool,
    /// Current lock state.
    pub lock_state: LockState,
}

impl PixelBufferView {
    /// Number of planes; zero for non-planar buffers.
    pub open spec fn plane_count(self) -> nat {
        self.planes.len()
    }

    /// Whether the buffer is planar.
    pub open spec fn is_planar(self) -> bool {
        self.plane_count() > 0
    }

    /// Size in bytes of the whole-buffer view: one row stride per row.
    pub open spec fn base_size(self) -> int {
        self.bytes_per_row * self.height
    }

    /// The bytes visible through the whole-buffer view.
    pub open spec fn base_bytes(self) -> Seq<u8> {
        self.data.subrange(0, self.base_size())
    }

    /// Whether a whole-buffer base address exists: the memory is
    /// CPU-addressable and not split into planes.
    pub open spec fn has_base_address(self) -> bool {
        self.addressable && !self.is_planar()
    }

    /// Size in bytes of plane `i`'s view: one plane row stride per row.
    pub open spec fn plane_size(self, i: int) -> int {
        self.planes[i].bytes_per_row * self.height
    }

    /// The bytes visible through plane `i`'s view.
    pub open spec fn plane_bytes(self, i: int) -> Seq<u8> {
        self.planes[i].data@.subrange(0, self.plane_size(i))
    }

    /// Whether a lock is held, in either mode.
    pub open spec fn is_locked(self) -> bool {
        self.lock_state is Locked
    }

    /// Whether a read-write lock is held.
    pub open spec fn is_locked_for_writing(self) -> bool {
        self.lock_state == LockState::Locked(CVPixelBufferLockFlags::ReadWrite)
    }

    /// Whether a lock call is admissible: no lock is held yet.
    pub open spec fn can_lock(self) -> bool {
        self.lock_state == LockState::Unlocked
    }

    /// Whether an unlock call with `flags` is admissible: a lock is held
    /// and `flags` matches the mode it was taken with.
    pub open spec fn can_unlock(self, flags: CVPixelBufferLockFlags) -> bool {
        self.lock_state == LockState::Locked(flags)
    }

    /// The buffer after a lock with `flags` is taken.
    pub open spec fn locked(self, flags: CVPixelBufferLockFlags) -> Self {
        PixelBufferView { lock_state: LockState::Locked(flags), ..self }
    }

    /// The buffer after the lock is released.
    pub open spec fn unlocked(self) -> Self {
        PixelBufferView { lock_state: LockState::Unlocked, ..self }
    }

    /// The buffer after the whole-buffer view has been overwritten with `w`:
    /// the bytes past the view window are untouched.
    pub open spec fn with_base_written(self, w: Seq<u8>) -> Self {
        PixelBufferView { data: w + self.data.skip(self.base_size()), ..self }
    }

    /// Relates the buffer to `post`, its state after plane `i`'s view has
    /// been overwritten with `w`: everything but plane `i`'s bytes is
    /// untouched, and plane `i`'s bytes past the view window are untouched.
    pub open spec fn plane_written(self, post: Self, i: int, w: Seq<u8>) -> bool {
        &&& 0 <= i < self.planes.len()
        &&& post.width == self.width
        &&& post.height == self.height
        &&& post.format == self.format
        &&& post.bytes_per_row == self.bytes_per_row
        &&& post.addressable == self.addressable
        &&& post.lock_state == self.lock_state
        &&& post.data == self.data
        &&& post.planes.len() == self.planes.len()
        &&& forall|q: int|
            0 <= q < self.planes.len() && q != i ==> post.planes[q] == self.planes[q]
        &&& post.planes[i].bytes_per_row == self.planes[i].bytes_per_row
        &&& post.planes[i].data@ == w + self.planes[i].data@.skip(self.plane_size(i))
    }

    /// Well-formedness: plane counts fit the query type, every addressable
    /// region is large enough for its view window, and memory lives exactly
    /// where the buffer's kind says it does.
    pub open spec fn wf(self) -> bool {
        &&& self.planes.len() <= u32::MAX
        &&& self.is_planar() ==> {
            &&& self.addressable
            &&& self.bytes_per_row == 0
            &&& self.data.len() == 0
            &&& forall|i: int|
                0 <= i < self.planes.len() ==> self.planes[i].data@.len() >= self.plane_size(i)
        }
        &&& !self.is_planar() ==> {
            &&& self.addressable ==> self.data.len() >= self.base_size()
            &&& !self.addressable ==> self.data.len() == 0
        }
    }
}

/// Handle to one pixel buffer, owning its backing memory and its lock state.
#[derive(Debug)]
pub struct CVPixelBuffer {
    width: u32,
    height: u32,
    format: FourCharCode,
    bytes_per_row: u32,
    planes: Vec<PlaneDescriptor>,
    data: Vec<u8>,
    addressable: bool,
    lock_state: LockState,
}

impl View for CVPixelBuffer {
    type V = PixelBufferView;

    closed spec fn view(&self) -> PixelBufferView {
        PixelBufferView {
            width: self.width,
            height: self.height,
            format: self.format,
            bytes_per_row: self.bytes_per_row,
            planes: self.planes@,
            data: self.data@,
            addressable: self.addressable,
            lock_state: self.lock_state,
        }
    }
}

impl CVPixelBuffer {
    /// Whether the buffer is planar: true exactly when it has at least one
    /// plane.
    pub fn is_planar(&self) -> (r: bool)
        ensures
            r == self@.is_planar(),
    {
        self.planes.len() > 0
    }

    /// Row stride of the whole buffer in bytes; zero for planar buffers,
    /// where it is not applicable.
    pub fn get_bytes_per_row(&self) -> (r: u32)
        ensures
            r == self@.bytes_per_row,
    {
        self.bytes_per_row
    }

    /// Row stride of plane `plane_index` in bytes; zero when the index is
    /// not a valid plane, where it is not applicable.
    pub fn get_bytes_per_row_of_plane(&self, plane_index: u32) -> (r: u32)
        ensures
            plane_index < self@.plane_count() ==> r == self@.planes[plane_index as int].bytes_per_row,
            plane_index >= self@.plane_count() ==> r == 0,
    {
        if (plane_index as usize) < self.planes.len() {
            self.planes[plane_index as usize].bytes_per_row
        } else {
            0
        }
    }

    /// Width in pixels.
    pub fn get_width(&self) -> (r: u32)
        ensures
            r == self@.width,
    {
        self.width
    }

    /// Height in pixels.
    pub fn get_height(&self) -> (r: u32)
        ensures
            r == self@.height,
    {
        self.height
    }

    /// Number of planes; zero for non-planar buffers.
    pub fn get_plane_count(&self) -> (r: u32)
        requires
            self@.wf(),
        ensures
            r == self@.plane_count(),
    {
        self.planes.len() as u32
    }

    /// Takes the lock in the given mode, making the backing memory
    /// addressable until the matching unlock.
    pub fn lock_base_address(&mut self, lock_flags: CVPixelBufferLockFlags) -> (r: Result<
        (),
        CVPixelBufferError,
    >)
        requires
            old(self)@.can_lock(),
        ensures
            r is Ok,
            final(self)@ == old(self)@.locked(lock_flags),
    {
        self.lock_state = LockState::Locked(lock_flags);
        Ok(())
    }

    /// Releases the lock. The flags must match the mode the lock was taken
    /// with.
    pub fn unlock_base_address(&mut self, unlock_flags: CVPixelBufferLockFlags) -> (r: Result<
        (),
        CVPixelBufferError,
    >)
        requires
            old(self)@.can_unlock(unlock_flags),
        ensures
            r is Ok,
            final(self)@ == old(self)@.unlocked(),
    {
        self.lock_state = LockState::Unlocked;
        Ok(())
    }

    /// Read-only view over the whole buffer: exactly `bytes_per_row * height`
    /// bytes. Fails with `BaseAddress` when the buffer has no CPU-addressable
    /// whole-buffer region (surface-backed or planar). Callable only while a
    /// lock is held.
    pub fn base_address<'a>(&'a self) -> (r: Result<&'a [u8], CVPixelBufferError>)
        requires
            self@.wf(),
            self@.is_locked(),
        ensures
            self@.has_base_address() ==> (r matches Ok(s) && s@ == self@.base_bytes()),
            !self@.has_base_address() ==> r == Err::<&'a [u8], CVPixelBufferError>(
                CVPixelBufferError::BaseAddress,
            ),
    {
        if !self.addressable || self.planes.len() > 0 {
            return Err(CVPixelBufferError::BaseAddress);
        }
        let data_len = self.data.len();
        proof {
            assert(self@.base_size() <= data_len);
        }
        let size: usize = (self.bytes_per_row as usize) * (self.height as usize);
        Ok(slice_subrange(self.data.as_slice(), 0, size))
    }

    /// Mutable view over the whole buffer: exactly `bytes_per_row * height`
    /// bytes. Bytes written through it land in the buffer's backing memory;
    /// bytes past the view window are untouched. Fails with `BaseAddress`
    /// when the buffer has no CPU-addressable whole-buffer region. Callable
    /// only while a read-write lock is held.
    pub fn base_address_mut<'a>(&'a mut self) -> (r: Result<&'a mut [u8], CVPixelBufferError>)
        requires
            old(self)@.wf(),
            old(self)@.is_locked_for_writing(),
        ensures
            old(self)@.has_base_address() ==> r is Ok && r->Ok_0@ == old(self)@.base_bytes()
                && final(self)@ == old(self)@.with_base_written(final(r->Ok_0)@),
            !old(self)@.has_base_address() ==> final(self)@ == old(self)@ && r == Err::<
                &'a mut [u8],
                CVPixelBufferError,
            >(CVPixelBufferError::BaseAddress),
    {
        if !self.addressable || self.planes.len() > 0 {
            return Err(CVPixelBufferError::BaseAddress);
        }
        let data_len = self.data.len();
        proof {
            assert(self@.base_size() <= data_len);
        }
        let size: usize = (self.bytes_per_row as usize) * (self.height as usize);
        let (view, _rest) = self.data.as_mut_slice().split_at_mut(size);
        Ok(view)
    }

    /// Read-only view over plane `plane_index`: exactly
    /// `bytes_per_row_of_plane * height` bytes. Fails with `BaseAddress`
    /// when the index is not a valid plane; in particular, every index fails
    /// on a non-planar buffer. Callable only while a lock is held.
    pub fn base_address_of_plane<'a>(&'a self, plane_index: u32) -> (r: Result<
        &'a [u8],
        CVPixelBufferError,
    >)
        requires
            self@.wf(),
            self@.is_locked(),
        ensures
            plane_index < self@.plane_count() ==> (r matches Ok(s) && s@ == self@.plane_bytes(
                plane_index as int,
            )),
            plane_index >= self@.plane_count() ==> r == Err::<&'a [u8], CVPixelBufferError>(
                CVPixelBufferError::BaseAddress,
            ),
    {
        if (plane_index as usize) >= self.planes.len() {
            return Err(CVPixelBufferError::BaseAddress);
        }
        let plane = &self.planes[plane_index as usize];
        let plane_len = plane.data.len();
        proof {
            assert(self@.plane_size(plane_index as int) <= plane_len);
        }
        let size: usize = (plane.bytes_per_row as usize) * (self.height as usize);
        Ok(slice_subrange(plane.data.as_slice(), 0, size))
    }

    /// Mutable view over plane `plane_index`: exactly
    /// `bytes_per_row_of_plane * height` bytes. Bytes written through it land
    /// in that plane's backing memory; other planes and the bytes past the
    /// view window are untouched. Fails with `BaseAddress` when the index is
    /// not a valid plane. Callable only while a read-write lock is held.
    pub fn base_address_of_plane_mut<'a>(&'a mut self, plane_index: u32) -> (r: Result<
        &'a mut [u8],
        CVPixelBufferError,
    >)
        requires
            old(self)@.wf(),
            old(self)@.is_locked_for_writing(),
        ensures
            plane_index < old(self)@.plane_count() ==> r is Ok && r->Ok_0@ == old(
                self,
            )@.plane_bytes(plane_index as int) && old(self)@.plane_written(
                final(self)@,
                plane_index as int,
                final(r->Ok_0)@,
            ),
            plane_index >= old(self)@.plane_count() ==> final(self)@ == old(self)@ && r == Err::<
                &'a mut [u8],
                CVPixelBufferError,
            >(CVPixelBufferError::BaseAddress),
    {
        if (plane_index as usize) >= self.planes.len() {
            return Err(CVPixelBufferError::BaseAddress);
        }
        let height = self.height;
        let ghost pre = self@;
        let plane = &mut self.planes[plane_index as usize];
        let plane_len = plane.data.len();
        proof {
            assert(pre.plane_size(plane_index as int) <= plane_len);
        }
        let size: usize = (plane.bytes_per_row as usize) * (height as usize);
        let (view, _rest) = plane.data.as_mut_slice().split_at_mut(size);
        Ok(view)
    }
}

/// Whether caller-supplied non-planar memory of length `len` suffices for a
/// buffer of the given geometry.
pub open spec fn spec_valid_bytes_layout(width: u32, height: u32, bytes_per_row: u32, len: nat) -> bool {
    &&& width > 0
    &&& height > 0
    &&& len >= bytes_per_row * height
}

/// Whether caller-supplied planar memory suffices for a buffer of the given
/// geometry: every plane holds at least its view window.
pub open spec fn spec_valid_planar_layout(width: u32, height: u32, planes: Seq<PlaneDescriptor>) -> bool {
    &&& width > 0
    &&& height > 0
    &&& planes.len() <= u32::MAX
    &&& forall|i: int|
        0 <= i < planes.len() ==> planes[i].data@.len() >= planes[i].bytes_per_row * height
}

/// The product of two 32-bit values fits in 64 bits.
proof fn lemma_u32_mul_fits_u64(a: u32, b: u32)
    ensures
        a * b <= u64::MAX,
{
    assert(a * b <= 0xFFFF_FFFFint * 0xFFFF_FFFFint) by (nonlinear_arith)
        requires
            a <= 0xFFFF_FFFFint,
            b <= 0xFFFF_FFFFint,
    ;
}

/// A vector of `n` zero bytes.
fn zeroed_vec(n: usize) -> (r: Vec<u8>)
    ensures
        r@.len() == n,
        forall|i: int| 0 <= i < n ==> r@[i] == 0,
{
    let mut v: Vec<u8> = Vec::new();
    let mut i: usize = 0;
    while i < n
        invariant
            i <= n,
            v@.len() == i,
            forall|j: int| 0 <= j < i ==> v@[j] == 0,
        decreases n - i,
    {
        v.push(0u8);
        i = i + 1;
    }
    v
}

impl CVPixelBuffer {
    /// Creates a buffer whose backing memory this layer allocates and zeroes.
    /// The format tag is opaque and never interpreted, so the portable
    /// backing uses the tightest layout: a row stride of `width` bytes.
    /// Fails with `CreationFailure` on zero dimensions or when the
    /// allocation cannot fit the address space.
    pub fn create(
        width: u32,
        height: u32,
        pixel_format_type: FourCharCode,
        pixel_buffer_attributes: PixelBufferAttributes,
    ) -> (r: Result<Self, CVPixelBufferError>)
        ensures
            width > 0 && height > 0 && width * height <= usize::MAX ==> (r matches Ok(b)
                && b@.wf() && b@.width == width && b@.height == height && b@.format
                == pixel_format_type && b@.bytes_per_row == width && b@.planes
                == Seq::<PlaneDescriptor>::empty() && b@.addressable && b@.lock_state
                == LockState::Unlocked && b@.data.len() == width * height && (forall|i: int|
                0 <= i < b@.data.len() ==> b@.data[i] == 0)),
            width == 0 || height == 0 ==> r == Err::<Self, CVPixelBufferError>(
                CVPixelBufferError::CreationFailure(CV_RETURN_INVALID_SIZE),
            ),
            width > 0 && height > 0 && width * height > usize::MAX ==> r == Err::<
                Self,
                CVPixelBufferError,
            >(CVPixelBufferError::CreationFailure(CV_RETURN_ALLOCATION_FAILED)),
    {
        if width == 0 || height == 0 {
            return Err(CVPixelBufferError::CreationFailure(CV_RETURN_INVALID_SIZE));
        }
        proof {
            lemma_u32_mul_fits_u64(width, height);
        }
        let total = (width as u64) * (height as u64);
        if total > (usize::MAX as u64) {
            return Err(CVPixelBufferError::CreationFailure(CV_RETURN_ALLOCATION_FAILED));
        }
        let data = zeroed_vec(total as usize);
        Ok(
            CVPixelBuffer {
                width,
                height,
                format: pixel_format_type,
                bytes_per_row: width,
                planes: Vec::new(),
                data,
                addressable: true,
                lock_state: LockState::Unlocked,
            },
        )
    }

    /// Creates a buffer over a hardware surface. The buffer takes its
    /// geometry and format from the surface; its memory stays with the
    /// surface's owner, so no view of it can be obtained through this layer.
    /// Fails with `CreationFailure` on zero surface dimensions.
    pub fn create_with_io_surface(
        surface: &IOSurface,
        pixel_buffer_attributes: PixelBufferAttributes,
    ) -> (r: Result<Self, CVPixelBufferError>)
        ensures
            surface.width > 0 && surface.height > 0 ==> (r matches Ok(b) && b@.wf() && b@.width
                == surface.width && b@.height == surface.height && b@.format == surface.format
                && b@.bytes_per_row == surface.bytes_per_row && b@.planes
                == Seq::<PlaneDescriptor>::empty() && !b@.addressable && b@.data.len() == 0
                && b@.lock_state == LockState::Unlocked),
            surface.width == 0 || surface.height == 0 ==> r == Err::<Self, CVPixelBufferError>(
                CVPixelBufferError::CreationFailure(CV_RETURN_INVALID_SIZE),
            ),
    {
        if surface.width == 0 || surface.height == 0 {
            return Err(CVPixelBufferError::CreationFailure(CV_RETURN_INVALID_SIZE));
        }
        Ok(
            CVPixelBuffer {
                width: surface.width,
                height: surface.height,
                format: surface.format,
                bytes_per_row: surface.bytes_per_row,
                planes: Vec::new(),
                data: Vec::new(),
                addressable: false,
                lock_state: LockState::Unlocked,
            },
        )
    }

    /// Creates a non-planar buffer over caller-supplied memory. The buffer
    /// takes ownership of the bytes; the first `bytes_per_row * height` of
    /// them form the view window. Fails with `CreationFailure` on zero
    /// dimensions or when the memory is smaller than the view window.
    pub fn create_with_bytes(
        width: u32,
        height: u32,
        pixel_format_type: FourCharCode,
        base_address: Vec<u8>,
        bytes_per_row: u32,
        pixel_buffer_attributes: PixelBufferAttributes,
    ) -> (r: Result<Self, CVPixelBufferError>)
        ensures
            spec_valid_bytes_layout(width, height, bytes_per_row, base_address@.len()) ==> (
            r matches Ok(b) && b@.wf() && b@.width == width && b@.height == height && b@.format
                == pixel_format_type && b@.bytes_per_row == bytes_per_row && b@.planes
                == Seq::<PlaneDescriptor>::empty() && b@.data == base_address@ && b@.addressable
                && b@.lock_state == LockState::Unlocked),
            !spec_valid_bytes_layout(width, height, bytes_per_row, base_address@.len()) ==> r
                == Err::<Self, CVPixelBufferError>(
                CVPixelBufferError::CreationFailure(CV_RETURN_INVALID_SIZE),
            ),
    {
        if width == 0 || height == 0 {
            return Err(CVPixelBufferError::CreationFailure(CV_RETURN_INVALID_SIZE));
        }
        proof {
            lemma_u32_mul_fits_u64(bytes_per_row, height);
        }
        let needed = (bytes_per_row as u64) * (height as u64);
        if (base_address.len() as u64) < needed {
            return Err(CVPixelBufferError::CreationFailure(CV_RETURN_INVALID_SIZE));
        }
        Ok(
            CVPixelBuffer {
                width,
                height,
                format: pixel_format_type,
                bytes_per_row,
                planes: Vec::new(),
                data: base_address,
                addressable: true,
                lock_state: LockState::Unlocked,
            },
        )
    }

    /// Creates a planar buffer over caller-supplied planar memory. The
    /// buffer takes ownership of the planes; each plane's first
    /// `bytes_per_row * height` bytes form its view window. Fails with
    /// `CreationFailure` on zero dimensions, on more planes than the plane
    /// count can report, or when a plane is smaller than its view window.
    pub fn create_with_planar_bytes(
        width: u32,
        height: u32,
        pixel_format_type: FourCharCode,
        data_pointer: PlanarDataPointer,
        pixel_buffer_attributes: PixelBufferAttributes,
    ) -> (r: Result<Self, CVPixelBufferError>)
        ensures
            spec_valid_planar_layout(width, height, data_pointer.planes@) ==> (r matches Ok(b)
                && b@.wf() && b@.width == width && b@.height == height && b@.format
                == pixel_format_type && b@.bytes_per_row == 0 && b@.planes
                == data_pointer.planes@ && b@.data.len() == 0 && b@.addressable && b@.lock_state
                == LockState::Unlocked),
            !spec_valid_planar_layout(width, height, data_pointer.planes@) ==> r == Err::<
                Self,
                CVPixelBufferError,
            >(CVPixelBufferError::CreationFailure(CV_RETURN_INVALID_SIZE)),
    {
        if width == 0 || height == 0 {
            return Err(CVPixelBufferError::CreationFailure(CV_RETURN_INVALID_SIZE));
        }
        let n = data_pointer.planes.len();
        if n > (u32::MAX as usize) {
            return Err(CVPixelBufferError::CreationFailure(CV_RETURN_INVALID_SIZE));
        }
        let mut i: usize = 0;
        while i < n
            invariant
                i <= n,
                n == data_pointer.planes@.len(),
                forall|j: int|
                    0 <= j < i ==> data_pointer.planes@[j].data@.len()
                        >= data_pointer.planes@[j].bytes_per_row * height,
            decreases n - i,
        {
            let plane = &data_pointer.planes[i];
            proof {
                lemma_u32_mul_fits_u64(plane.bytes_per_row, height);
            }
            if (plane.data.len() as u64) < (plane.bytes_per_row as u64) * (height as u64) {
                return Err(CVPixelBufferError::CreationFailure(CV_RETURN_INVALID_SIZE));
            }
            i = i + 1;
        }
        let PlanarDataPointer { planes } = data_pointer;
        Ok(
            CVPixelBuffer {
                width,
                height,
                format: pixel_format_type,
                bytes_per_row: 0,
                planes,
                data: Vec::new(),
                addressable: true,
                lock_state: LockState::Unlocked,
            },
        )
    }

    /// Hands back the backing bytes of a non-planar buffer, consuming the
    /// handle.
    pub(crate) fn into_data(self) -> (d: Vec<u8>)
        ensures
            d@ == self@.data,
    {
        self.data
    }

    /// Hands back the planes of a planar buffer, consuming the handle.
    pub(crate) fn into_planes(self) -> (p: Vec<PlaneDescriptor>)
        ensures
            p@ == self@.planes,
    {
        self.planes
    }
}

} // verus!
