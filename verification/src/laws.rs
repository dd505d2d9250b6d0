//! Properties of the pixel-buffer model, stated and proved once for every
//! buffer rather than checked on samples.

use vstd::prelude::*;

use crate::lock::CVPixelBufferLockFlags;
use crate::lock::LockState;
use crate::pixel_buffer::PixelBufferView;

verus! {

/// The product of two unsigned factors is nonnegative.
proof fn lemma_u32_mul_nonneg(a: u32, b: u32)
    ensures
        a * b >= 0,
{
    assert(a * b >= 0) by (nonlinear_arith)
        requires
            a >= 0,
            b >= 0,
    ;
}

/// A buffer is planar exactly when its plane count is positive.
pub proof fn lemma_planar_iff_positive_plane_count(v: PixelBufferView)
    ensures
        v.is_planar() <==> v.plane_count() > 0,
{
}

/// On an unlocked buffer a lock in any mode is admissible; the matching
/// unlock is then admissible in turn, and the lock/unlock cycle restores
/// the buffer exactly.
pub proof fn lemma_lock_unlock_round_trip(v: PixelBufferView, flags: CVPixelBufferLockFlags)
    requires
        v.lock_state == LockState::Unlocked,
    ensures
        v.can_lock(),
        v.locked(flags).can_unlock(flags),
        v.locked(flags).unlocked() == v,
{
    assert(v.locked(flags).unlocked() =~= v);
}

/// The whole-buffer view covers exactly `bytes_per_row * height` bytes.
pub proof fn lemma_base_view_size(v: PixelBufferView)
    requires
        v.wf(),
        v.has_base_address(),
    ensures
        v.base_bytes().len() == v.bytes_per_row * v.height,
{
}

/// Bytes written through the whole-buffer view are read back unchanged
/// through it, and the write touches nothing else: geometry, lock state and
/// well-formedness are preserved.
pub proof fn lemma_base_write_round_trip(v: PixelBufferView, w: Seq<u8>)
    requires
        v.wf(),
        v.has_base_address(),
        w.len() == v.base_size(),
    ensures
        v.with_base_written(w).base_bytes() == w,
        v.with_base_written(w).wf(),
        v.with_base_written(w).width == v.width,
        v.with_base_written(w).height == v.height,
        v.with_base_written(w).bytes_per_row == v.bytes_per_row,
        v.with_base_written(w).lock_state == v.lock_state,
{
    let post = v.with_base_written(w);
    assert(post.base_bytes() =~= w);
}

/// Bytes written through one plane's view are read back unchanged through
/// that plane's view, every other plane's view is untouched, and
/// well-formedness is preserved.
pub proof fn lemma_plane_write_round_trip(
    pre: PixelBufferView,
    post: PixelBufferView,
    i: int,
    w: Seq<u8>,
)
    requires
        pre.wf(),
        0 <= i < pre.plane_count(),
        w.len() == pre.plane_size(i),
        pre.plane_written(post, i, w),
    ensures
        post.plane_bytes(i) == w,
        forall|q: int|
            0 <= q < pre.plane_count() && q != i ==> post.plane_bytes(q) == pre.plane_bytes(q),
        post.plane_count() == pre.plane_count(),
        post.wf(),
{
    assert(post.plane_bytes(i) =~= w);
    assert forall|q: int|
        0 <= q < post.planes.len() implies post.planes[q].data@.len() >= post.plane_size(q) by {
        lemma_u32_mul_nonneg(pre.planes[q].bytes_per_row, pre.height);
        assert(pre.planes[q].data@.len() >= pre.plane_size(q));
        if q == i {
            assert(post.plane_size(i) == pre.plane_size(i));
            assert(post.planes[i].data@.len() == w.len() + (pre.planes[i].data@.len()
                - pre.plane_size(i)));
        } else {
            assert(post.planes[q] == pre.planes[q]);
            assert(post.plane_size(q) == pre.plane_size(q));
        }
    }
}

} // verus!
