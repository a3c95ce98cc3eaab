use capture_core::cerror::CError;
use capture_core::screen_capture::linux::ScreenCaptureX11;
use capture_core::screen_capture::{CImage, PixelProvider, ScreenCapture, BYTES_PER_PIXEL};
use capture_core::x11helper::{X11Capturable, X11Context};

fn ok() -> CError {
    CError::new()
}

fn failure(code: i32, message: &str) -> CError {
    CError { code, message: String::from(message) }
}

fn target(handle: usize) -> X11Capturable {
    let mut context = X11Context::new(0x1000).unwrap();
    context.capturables(&[handle], 1, ok()).unwrap().pop().unwrap()
}

fn session() -> ScreenCaptureX11 {
    match ScreenCaptureX11::new(target(0xa0), true, 0x5e55, ok()) {
        Ok(s) => s,
        Err(_) => panic!("start failed"),
    }
}

#[test]
fn empty_descriptor() {
    let img = CImage::new();
    assert_eq!(img, CImage { data: 0, width: 0, height: 0 });
    assert_eq!(img.data(), 0);
    assert_eq!(img.size(), Some(0));
}

#[test]
fn descriptor_size_is_four_bytes_per_pixel() {
    assert_eq!(BYTES_PER_PIXEL, 4);
    let img = CImage { data: 0x7000, width: 1920, height: 1080 };
    assert_eq!(img.size(), Some(1920 * 1080 * 4));
    assert_eq!(img.size(), Some(8_294_400));
    assert_eq!(img.data(), 0x7000);
    assert_eq!(CImage { data: 1, width: 1, height: 1 }.size(), Some(4));
    assert_eq!(CImage { data: 1, width: 0, height: 99 }.size(), Some(0));
}

#[test]
fn descriptor_size_out_of_reach() {
    let img = CImage { data: 1, width: u32::MAX, height: u32::MAX };
    let exact = (u32::MAX as u128) * (u32::MAX as u128) * 4;
    if exact <= usize::MAX as u128 {
        assert_eq!(img.size(), Some(exact as usize));
    } else {
        assert_eq!(img.size(), None);
    }
    let wide = CImage { data: 1, width: 65_536, height: 16_384 };
    let exact = 65_536u128 * 16_384 * 4;
    if exact <= usize::MAX as u128 {
        assert_eq!(wide.size(), Some(exact as usize));
    } else {
        assert_eq!(wide.size(), None);
    }
}

#[test]
fn failed_start_gives_no_session_and_returns_the_target() {
    match ScreenCaptureX11::new(target(0xa0), false, 0, failure(3, "cannot start")) {
        Ok(_) => panic!("a session came out of a failed start"),
        Err((err, capturable)) => {
            assert_eq!(err.code(), 3);
            assert_eq!(err.message, "cannot start");
            assert_eq!(capturable.handle(), 0xa0);
        },
    }
}

#[test]
fn new_session_has_no_frame() {
    let s = session();
    assert_eq!(s.handle(), 0x5e55);
    assert!(s.capture_cursor());
    assert_eq!(s.image(), CImage::new());
    assert_eq!(s.pixel_provider(), PixelProvider::Absent);
    assert_eq!(s.size(), (0, 0));
}

#[test]
fn successful_capture_shows_the_frame() {
    let mut s = session();
    let img = CImage { data: 0x7000, width: 800, height: 600 };
    assert!(s.capture(img, ok()).is_ok());
    assert_eq!(s.pixel_provider(), PixelProvider::BGR0(img));
    assert_eq!(s.size(), (800, 600));
    assert_eq!(s.image(), img);
}

#[test]
fn failed_capture_hides_the_frame_and_keeps_the_size() {
    let mut s = session();
    let img = CImage { data: 0x7000, width: 800, height: 600 };
    s.capture(img, ok()).unwrap();

    let garbage = CImage { data: 0x9000, width: 13, height: 17 };
    let err = s.capture(garbage, failure(5, "capture failed")).unwrap_err();
    assert_eq!(err.code(), 5);
    assert_eq!(err.message, "capture failed");
    assert_eq!(s.pixel_provider(), PixelProvider::Absent);
    assert_eq!(s.size(), (800, 600));

    // Still none after a second failure.
    assert!(s.capture(garbage, failure(2, "")).is_err());
    assert_eq!(s.pixel_provider(), PixelProvider::Absent);
    assert_eq!(s.size(), (800, 600));

    // The session can capture again.
    let next = CImage { data: 0x7000, width: 1024, height: 768 };
    assert!(s.capture(next, ok()).is_ok());
    assert_eq!(s.pixel_provider(), PixelProvider::BGR0(next));
    assert_eq!(s.size(), (1024, 768));
}

#[test]
fn failed_first_capture_leaves_zero_size() {
    let mut s = session();
    let garbage = CImage { data: 0x9000, width: 13, height: 17 };
    assert!(s.capture(garbage, failure(1, "no")).is_err());
    assert_eq!(s.pixel_provider(), PixelProvider::Absent);
    assert_eq!(s.size(), (0, 0));
}

#[test]
fn capture_without_pixels_shows_no_frame() {
    let mut s = session();
    let img = CImage { data: 0, width: 640, height: 480 };
    assert!(s.capture(img, ok()).is_ok());
    assert_eq!(s.pixel_provider(), PixelProvider::Absent);
    assert_eq!(s.size(), (640, 480));
}

#[test]
fn stopping_returns_session_and_target() {
    let mut s = session();
    s.capture(CImage { data: 0x7000, width: 8, height: 8 }, ok()).unwrap();
    let (handle, capturable) = s.stop();
    assert_eq!(handle, 0x5e55);
    assert_eq!(capturable.handle(), 0xa0);
}

#[test]
fn teardown_goes_session_then_target_then_display() {
    let mut context = X11Context::new(0x1000).unwrap();
    let capturable = context.capturables(&[0xa0], 1, ok()).unwrap().pop().unwrap();
    let s = match ScreenCaptureX11::new(capturable, false, 0x5e55, ok()) {
        Ok(s) => s,
        Err(_) => panic!("start failed"),
    };
    assert_eq!(context.release(), None);
    let (handle, capturable) = s.stop();
    assert_eq!(handle, 0x5e55);
    let teardown = capturable.release(&mut context);
    assert_eq!(teardown.destroy, 0xa0);
    assert_eq!(teardown.close_display, Some(0x1000));
}
