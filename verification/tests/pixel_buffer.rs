use std::cell::Cell;
use std::cell::RefCell;
use std::rc::Rc;

use core_video_rs::error::creation_error_from_status;
use core_video_rs::error::lock_error_from_status;
use core_video_rs::error::CV_RETURN_ERROR;
use core_video_rs::error::CV_RETURN_INVALID_ARGUMENT;
use core_video_rs::error::CV_RETURN_INVALID_PIXEL_FORMAT;
use core_video_rs::error::CV_RETURN_INVALID_SIZE;
use core_video_rs::error::CV_RETURN_LAST;
use core_video_rs::CVPixelBuffer;
use core_video_rs::CVPixelBufferError;
use core_video_rs::CVPixelBufferLockFlags;
use core_video_rs::FourCharCode;
use core_video_rs::IOSurface;
use core_video_rs::PixelBufferAttributes;
use core_video_rs::PlanarDataPointer;
use core_video_rs::PlaneDescriptor;

fn fmt_2vuy() -> FourCharCode {
    FourCharCode::new(0x32767579)
}

fn attrs() -> PixelBufferAttributes {
    PixelBufferAttributes::new()
}

fn planar_two_planes() -> CVPixelBuffer {
    // Height 4; plane 0 with stride 8, plane 1 with stride 4.
    let planes = vec![
        PlaneDescriptor::new(8, vec![0u8; 32]),
        PlaneDescriptor::new(4, vec![0u8; 16]),
    ];
    CVPixelBuffer::create_with_planar_bytes(8, 4, fmt_2vuy(), PlanarDataPointer::new(planes), attrs())
        .unwrap()
}

#[test]
fn created_buffer_echoes_dimensions() {
    let b = CVPixelBuffer::create(64, 32, fmt_2vuy(), attrs()).unwrap();
    assert_eq!(b.get_width(), 64);
    assert_eq!(b.get_height(), 32);

    let b2 = CVPixelBuffer::create_with_bytes(10, 4, fmt_2vuy(), vec![0u8; 80], 20, attrs())
        .unwrap();
    assert_eq!(b2.get_width(), 10);
    assert_eq!(b2.get_height(), 4);

    let s = IOSurface::new(7, 5, 32, fmt_2vuy());
    let b3 = CVPixelBuffer::create_with_io_surface(&s, attrs()).unwrap();
    assert_eq!(b3.get_width(), 7);
    assert_eq!(b3.get_height(), 5);

    let b4 = planar_two_planes();
    assert_eq!(b4.get_width(), 8);
    assert_eq!(b4.get_height(), 4);
}

#[test]
fn planar_iff_plane_count_positive() {
    let flat = CVPixelBuffer::create(16, 16, fmt_2vuy(), attrs()).unwrap();
    assert!(!flat.is_planar());
    assert_eq!(flat.get_plane_count(), 0);

    let planar = planar_two_planes();
    assert!(planar.is_planar());
    assert_eq!(planar.get_plane_count(), 2);
}

#[test]
fn lock_then_unlock_succeeds_on_fresh_buffer() {
    let mut b = CVPixelBuffer::create(16, 16, fmt_2vuy(), attrs()).unwrap();
    assert!(b.lock_base_address(CVPixelBufferLockFlags::ReadWrite).is_ok());
    assert!(b.unlock_base_address(CVPixelBufferLockFlags::ReadWrite).is_ok());
}

#[test]
fn read_write_view_has_exact_size_and_round_trips() {
    let mut b = CVPixelBuffer::create_with_bytes(
        64,
        32,
        fmt_2vuy(),
        vec![0u8; 4096],
        128,
        attrs(),
    )
    .unwrap();
    b.lock_base_address(CVPixelBufferLockFlags::ReadWrite).unwrap();
    {
        let view = b.base_address_mut().unwrap();
        assert_eq!(view.len(), 128 * 32);
        for (i, byte) in view.iter_mut().enumerate() {
            *byte = (i % 251) as u8;
        }
    }
    {
        let view = b.base_address().unwrap();
        assert_eq!(view.len(), 4096);
        for (i, byte) in view.iter().enumerate() {
            assert_eq!(*byte, (i % 251) as u8);
        }
    }
    b.unlock_base_address(CVPixelBufferLockFlags::ReadWrite).unwrap();
}

#[test]
fn plane_view_out_of_range_is_base_address_error() {
    let mut planar = planar_two_planes();
    planar.lock_base_address(CVPixelBufferLockFlags::ReadOnly).unwrap();
    assert_eq!(
        planar.base_address_of_plane(2).unwrap_err(),
        CVPixelBufferError::BaseAddress
    );
    assert_eq!(
        planar.base_address_of_plane(7).unwrap_err(),
        CVPixelBufferError::BaseAddress
    );
    planar.unlock_base_address(CVPixelBufferLockFlags::ReadOnly).unwrap();

    let mut flat = CVPixelBuffer::create(4, 4, fmt_2vuy(), attrs()).unwrap();
    flat.lock_base_address(CVPixelBufferLockFlags::ReadOnly).unwrap();
    assert_eq!(
        flat.base_address_of_plane(0).unwrap_err(),
        CVPixelBufferError::BaseAddress
    );
    flat.unlock_base_address(CVPixelBufferLockFlags::ReadOnly).unwrap();
}

#[test]
fn release_callback_runs_exactly_once_after_use() {
    let count = Rc::new(Cell::new(0u32));
    let received: Rc<RefCell<Vec<u8>>> = Rc::new(RefCell::new(Vec::new()));
    let count_in_cb = Rc::clone(&count);
    let received_in_cb = Rc::clone(&received);
    let mut guard = CVPixelBuffer::create_with_bytes_release_cb(
        4,
        2,
        fmt_2vuy(),
        vec![7u8; 16],
        8,
        move |bytes: Vec<u8>| {
            count_in_cb.set(count_in_cb.get() + 1);
            *received_in_cb.borrow_mut() = bytes;
        },
        attrs(),
    )
    .unwrap();

    guard.buffer.lock_base_address(CVPixelBufferLockFlags::ReadWrite).unwrap();
    {
        let view = guard.buffer.base_address_mut().unwrap();
        view[0] = 42;
    }
    guard.buffer.unlock_base_address(CVPixelBufferLockFlags::ReadWrite).unwrap();
    assert_eq!(count.get(), 0);

    guard.release();
    assert_eq!(count.get(), 1);
    let bytes = received.borrow();
    assert_eq!(bytes.len(), 16);
    assert_eq!(bytes[0], 42);
    assert!(bytes[1..].iter().all(|&x| x == 7));
}

#[test]
fn planar_release_callback_returns_planes() {
    let count = Rc::new(Cell::new(0u32));
    let count_in_cb = Rc::clone(&count);
    let planes = vec![
        PlaneDescriptor::new(8, vec![1u8; 32]),
        PlaneDescriptor::new(4, vec![2u8; 16]),
    ];
    let guard = CVPixelBuffer::create_with_planar_bytes_release_cb(
        8,
        4,
        fmt_2vuy(),
        PlanarDataPointer::new(planes),
        move |returned: PlanarDataPointer| {
            count_in_cb.set(count_in_cb.get() + 1);
            assert_eq!(returned.planes.len(), 2);
            assert_eq!(returned.planes[0].data, vec![1u8; 32]);
            assert_eq!(returned.planes[1].data, vec![2u8; 16]);
        },
        attrs(),
    )
    .unwrap();
    assert_eq!(count.get(), 0);
    guard.release();
    assert_eq!(count.get(), 1);
}

#[test]
fn failed_creation_never_invokes_callback() {
    let count = Rc::new(Cell::new(0u32));
    let count_in_cb = Rc::clone(&count);
    // Memory smaller than one view window: creation must fail.
    let result = CVPixelBuffer::create_with_bytes_release_cb(
        8,
        4,
        fmt_2vuy(),
        vec![0u8; 31],
        8,
        move |_bytes: Vec<u8>| {
            count_in_cb.set(count_in_cb.get() + 1);
        },
        attrs(),
    );
    assert_eq!(
        result.err().map(|e| e == CVPixelBufferError::CreationFailure(CV_RETURN_INVALID_SIZE)),
        Some(true)
    );
    assert_eq!(count.get(), 0);
}

#[test]
fn plane_round_trip_within_lock_session() {
    let mut b = planar_two_planes();
    b.lock_base_address(CVPixelBufferLockFlags::ReadWrite).unwrap();
    {
        let view = b.base_address_of_plane_mut(1).unwrap();
        assert_eq!(view.len(), 4 * 4);
        for (i, byte) in view.iter_mut().enumerate() {
            *byte = (0x30 + i) as u8;
        }
    }
    {
        let view = b.base_address_of_plane(1).unwrap();
        for (i, byte) in view.iter().enumerate() {
            assert_eq!(*byte, (0x30 + i) as u8);
        }
    }
    {
        // The other plane is untouched.
        let view = b.base_address_of_plane(0).unwrap();
        assert_eq!(view.len(), 8 * 4);
        assert!(view.iter().all(|&x| x == 0));
    }
    b.unlock_base_address(CVPixelBufferLockFlags::ReadWrite).unwrap();
}

#[test]
fn non_planar_scenario_with_2vuy_layout() {
    let mut b = CVPixelBuffer::create_with_bytes(
        64,
        32,
        fmt_2vuy(),
        vec![0u8; 4096],
        128,
        attrs(),
    )
    .unwrap();
    b.lock_base_address(CVPixelBufferLockFlags::ReadWrite).unwrap();
    {
        let view = b.base_address_mut().unwrap();
        assert_eq!(view.len(), 4096);
    }
    b.unlock_base_address(CVPixelBufferLockFlags::ReadWrite).unwrap();
    // A later lock/unlock cycle still succeeds.
    assert!(b.lock_base_address(CVPixelBufferLockFlags::ReadWrite).is_ok());
    assert!(b.unlock_base_address(CVPixelBufferLockFlags::ReadWrite).is_ok());
}

#[test]
fn status_codes_map_to_typed_errors() {
    assert_eq!(
        lock_error_from_status(CV_RETURN_ERROR),
        CVPixelBufferError::LockFailure(CV_RETURN_ERROR)
    );
    assert_eq!(
        lock_error_from_status(CV_RETURN_LAST),
        CVPixelBufferError::LockFailure(CV_RETURN_LAST)
    );
    assert_eq!(
        lock_error_from_status(CV_RETURN_INVALID_ARGUMENT),
        CVPixelBufferError::LockFailure(CV_RETURN_INVALID_ARGUMENT)
    );
    // Just past the recognized table in both directions.
    assert_eq!(
        lock_error_from_status(-6700),
        CVPixelBufferError::UnknownStatus(-6700)
    );
    assert_eq!(
        lock_error_from_status(12345),
        CVPixelBufferError::UnknownStatus(12345)
    );
    assert_eq!(
        creation_error_from_status(CV_RETURN_INVALID_SIZE),
        CVPixelBufferError::CreationFailure(CV_RETURN_INVALID_SIZE)
    );
    assert_eq!(
        creation_error_from_status(CV_RETURN_INVALID_PIXEL_FORMAT),
        CVPixelBufferError::CreationFailure(CV_RETURN_INVALID_PIXEL_FORMAT)
    );
    assert_eq!(
        creation_error_from_status(42),
        CVPixelBufferError::UnknownStatus(42)
    );
}

#[test]
fn lock_flags_wire_values() {
    assert_eq!(CVPixelBufferLockFlags::ReadWrite.wire_value(), 0x0);
    assert_eq!(CVPixelBufferLockFlags::ReadOnly.wire_value(), 0x1);
}

#[test]
fn creation_rejects_bad_inputs() {
    assert_eq!(
        CVPixelBuffer::create(0, 5, fmt_2vuy(), attrs()).unwrap_err(),
        CVPixelBufferError::CreationFailure(CV_RETURN_INVALID_SIZE)
    );
    assert_eq!(
        CVPixelBuffer::create(5, 0, fmt_2vuy(), attrs()).unwrap_err(),
        CVPixelBufferError::CreationFailure(CV_RETURN_INVALID_SIZE)
    );
    // Memory smaller than one view window.
    assert_eq!(
        CVPixelBuffer::create_with_bytes(8, 4, fmt_2vuy(), vec![0u8; 31], 8, attrs())
            .unwrap_err(),
        CVPixelBufferError::CreationFailure(CV_RETURN_INVALID_SIZE)
    );
    // One plane smaller than its view window.
    let planes = vec![
        PlaneDescriptor::new(8, vec![0u8; 32]),
        PlaneDescriptor::new(4, vec![0u8; 15]),
    ];
    assert_eq!(
        CVPixelBuffer::create_with_planar_bytes(
            8,
            4,
            fmt_2vuy(),
            PlanarDataPointer::new(planes),
            attrs()
        )
        .unwrap_err(),
        CVPixelBufferError::CreationFailure(CV_RETURN_INVALID_SIZE)
    );
    let s = IOSurface::new(0, 5, 32, fmt_2vuy());
    assert_eq!(
        CVPixelBuffer::create_with_io_surface(&s, attrs()).unwrap_err(),
        CVPixelBufferError::CreationFailure(CV_RETURN_INVALID_SIZE)
    );
}

#[test]
fn bytes_per_row_queries() {
    let flat = CVPixelBuffer::create_with_bytes(64, 32, fmt_2vuy(), vec![0u8; 4096], 128, attrs())
        .unwrap();
    assert_eq!(flat.get_bytes_per_row(), 128);
    assert_eq!(flat.get_bytes_per_row_of_plane(0), 0);

    let planar = planar_two_planes();
    assert_eq!(planar.get_bytes_per_row(), 0);
    assert_eq!(planar.get_bytes_per_row_of_plane(0), 8);
    assert_eq!(planar.get_bytes_per_row_of_plane(1), 4);
    assert_eq!(planar.get_bytes_per_row_of_plane(2), 0);
}

#[test]
fn surface_backed_buffer_has_no_base_address() {
    let s = IOSurface::new(7, 5, 32, fmt_2vuy());
    let mut b = CVPixelBuffer::create_with_io_surface(&s, attrs()).unwrap();
    assert_eq!(b.get_bytes_per_row(), 32);
    b.lock_base_address(CVPixelBufferLockFlags::ReadOnly).unwrap();
    assert_eq!(b.base_address().unwrap_err(), CVPixelBufferError::BaseAddress);
    b.unlock_base_address(CVPixelBufferLockFlags::ReadOnly).unwrap();
}

#[test]
fn read_only_lock_allows_reading() {
    let mut data = vec![0u8; 64];
    for (i, byte) in data.iter_mut().enumerate() {
        *byte = i as u8;
    }
    let mut b = CVPixelBuffer::create_with_bytes(8, 4, fmt_2vuy(), data, 16, attrs()).unwrap();
    b.lock_base_address(CVPixelBufferLockFlags::ReadOnly).unwrap();
    let view = b.base_address().unwrap();
    assert_eq!(view.len(), 64);
    for (i, byte) in view.iter().enumerate() {
        assert_eq!(*byte, i as u8);
    }
    b.unlock_base_address(CVPixelBufferLockFlags::ReadOnly).unwrap();
}
