//! Safe lifecycle, locking, and byte-view management around a pixel buffer.
//!
//! A pixel buffer owns an image's backing memory together with its geometry
//! (width, height, row stride, planes). Byte-level access is mediated by a
//! lock protocol: views over the buffer's memory are handed out only while
//! the buffer is locked, and mutable views only under a read-write lock.
//! Buffers backed by caller-supplied memory can hand the memory back through
//! a one-shot release callback held by a lifetime guard.

pub mod attributes;
pub mod error;
pub mod laws;
pub mod lifetime;
pub mod lock;
pub mod pixel_buffer;
pub mod planar_data;
pub mod types;

pub use attributes::PixelBufferAttributes;
pub use error::CVPixelBufferError;
pub use lifetime::CVPixelBufferWithLifetime;
pub use lifetime::CVPixelBufferWithPlanarLifetime;
pub use lock::CVPixelBufferLockFlags;
pub use lock::LockState;
pub use pixel_buffer::CVPixelBuffer;
pub use pixel_buffer::PixelBufferView;
pub use planar_data::PlanarDataPointer;
pub use planar_data::PlaneDescriptor;
pub use types::FourCharCode;
pub use types::IOSurface;
