use capture_core::cerror::{CError, CODE_INVALID_DEVICE_NAME};
use capture_core::x11helper::{
    CaptureGeometry, GeometryError, Teardown, X11Capturable, X11Context, XDisplay,
    MAX_CAPTURABLES,
};

fn ok() -> CError {
    CError::new()
}

fn failure(code: i32, message: &str) -> CError {
    CError { code, message: String::from(message) }
}

fn context_with(handles: &[usize]) -> (X11Context, Vec<X11Capturable>) {
    let mut context = X11Context::new(0x1000).unwrap();
    let targets = context.capturables(handles, handles.len(), ok()).unwrap();
    (context, targets)
}

#[test]
fn failed_open_gives_no_display() {
    assert!(XDisplay::new(0).is_none());
    assert!(X11Context::new(0).is_none());
}

#[test]
fn opened_display_is_held_by_its_opener() {
    let disp = XDisplay::new(0xbeef).unwrap();
    assert_eq!(disp.handle(), 0xbeef);
    assert_eq!(disp.holders(), 1);
    assert!(!disp.is_closed());
    let context = X11Context::new(0xbeef).unwrap();
    assert_eq!(context.display().handle(), 0xbeef);
    assert_eq!(context.display().holders(), 1);
}

#[test]
fn display_closes_with_its_last_holder() {
    let mut disp = XDisplay::new(0x10).unwrap();
    assert!(disp.acquire());
    assert!(disp.acquire());
    assert_eq!(disp.holders(), 3);
    assert!(!disp.release());
    assert!(!disp.release());
    assert!(!disp.is_closed());
    assert!(disp.release());
    assert!(disp.is_closed());
    assert_eq!(disp.holders(), 0);
}

#[test]
fn closed_display_takes_no_holder_and_closes_once() {
    let mut disp = XDisplay::new(0x10).unwrap();
    assert!(disp.release());
    assert!(!disp.acquire());
    assert_eq!(disp.holders(), 0);
    assert!(!disp.release());
    assert!(disp.is_closed());
}

#[test]
fn enumeration_capacity() {
    assert_eq!(MAX_CAPTURABLES, 128);
}

#[test]
fn enumeration_makes_targets_in_order() {
    let mut context = X11Context::new(0x1000).unwrap();
    let mut handles = [0usize; MAX_CAPTURABLES];
    handles[0] = 0xa0;
    handles[1] = 0xb0;
    handles[2] = 0xc0;
    let targets = context.capturables(&handles, 3, ok()).unwrap();
    assert_eq!(targets.len(), 3);
    assert_eq!(targets[0].handle(), 0xa0);
    assert_eq!(targets[1].handle(), 0xb0);
    assert_eq!(targets[2].handle(), 0xc0);
    assert_eq!(context.display().holders(), 4);
}

#[test]
fn enumeration_of_full_capacity() {
    let mut context = X11Context::new(0x1000).unwrap();
    let mut handles = [0usize; MAX_CAPTURABLES];
    for (i, h) in handles.iter_mut().enumerate() {
        *h = 0x100 + i;
    }
    let targets = context.capturables(&handles, MAX_CAPTURABLES, ok()).unwrap();
    assert_eq!(targets.len(), 128);
    assert_eq!(targets[127].handle(), 0x100 + 127);
    assert_eq!(context.display().holders(), 129);
}

#[test]
fn empty_enumeration_is_no_error() {
    let mut context = X11Context::new(0x1000).unwrap();
    let handles = [0usize; MAX_CAPTURABLES];
    let targets = context.capturables(&handles, 0, failure(2, "no windows found")).unwrap();
    assert!(targets.is_empty());
    assert_eq!(context.display().holders(), 1);
}

#[test]
fn empty_code_gives_nothing_whatever_was_counted() {
    let mut context = X11Context::new(0x1000).unwrap();
    let handles = [0x55usize; 4];
    let targets = context.capturables(&handles, 4, failure(2, "")).unwrap();
    assert!(targets.is_empty());
    assert_eq!(context.display().holders(), 1);
}

#[test]
fn other_codes_fail_the_enumeration() {
    for code in [1, 3, -1, 22] {
        let mut context = X11Context::new(0x1000).unwrap();
        let handles = [0x55usize; 4];
        let err = context.capturables(&handles, 4, failure(code, "broken")).unwrap_err();
        assert_eq!(err.code(), code);
        assert_eq!(err.message, "broken");
        assert_eq!(context.display().holders(), 1);
    }
}

#[test]
fn successful_enumeration_of_nothing() {
    let mut context = X11Context::new(0x1000).unwrap();
    let targets = context.capturables(&[], 0, ok()).unwrap();
    assert!(targets.is_empty());
}

#[test]
fn display_outlives_every_clone() {
    let (mut context, mut targets) = context_with(&[0xa0, 0xb0]);
    let second = targets.pop().unwrap();
    let first = targets.pop().unwrap();
    let copy = first.clone(&mut context, 0xa1);
    assert_eq!(copy.handle(), 0xa1);
    assert_eq!(context.display().holders(), 4);

    // The opener goes first: the display stays.
    assert_eq!(context.release(), None);
    assert!(!context.display().is_closed());

    assert_eq!(first.release(&mut context), Teardown { destroy: 0xa0, close_display: None });
    let again = copy.clone(&mut context, 0xa2);
    assert_eq!(second.release(&mut context), Teardown { destroy: 0xb0, close_display: None });
    assert_eq!(copy.release(&mut context), Teardown { destroy: 0xa1, close_display: None });
    assert!(!context.display().is_closed());
    assert_eq!(
        again.release(&mut context),
        Teardown { destroy: 0xa2, close_display: Some(0x1000) }
    );
    assert!(context.display().is_closed());
}

#[test]
fn opener_may_be_the_last_holder() {
    let (mut context, mut targets) = context_with(&[0xa0]);
    let target = targets.pop().unwrap();
    assert_eq!(target.release(&mut context), Teardown { destroy: 0xa0, close_display: None });
    assert_eq!(context.release(), Some(0x1000));
    assert!(context.display().is_closed());
    assert_eq!(context.release(), None);
}

#[test]
fn geometry_of_a_target() {
    let (_context, targets) = context_with(&[0xa0]);
    let g = targets[0]
        .geometry(0.25f64.to_bits(), 0.5f64.to_bits(), 0.5f64.to_bits(), 0.25f64.to_bits(), ok())
        .unwrap();
    assert_eq!(f64::from_bits(g.x), 0.25);
    assert_eq!(f64::from_bits(g.y), 0.5);
    assert_eq!(f64::from_bits(g.width), 0.5);
    assert_eq!(f64::from_bits(g.height), 0.25);
    assert!(g.is_relative());
}

#[test]
fn geometry_fails_on_any_nonzero_code() {
    let (_context, targets) = context_with(&[0xa0]);
    for code in [1, 2, -7] {
        match targets[0].geometry(0, 0, 0, 0, failure(code, "gone")) {
            Err(GeometryError::Native(err)) => {
                assert_eq!(err.code(), code);
                assert_eq!(err.message, "gone");
            },
            other => panic!("unexpected result {:?}", other),
        }
    }
    // The outcome decides, whatever the values are.
    let two = 2.0f64.to_bits();
    match targets[0].geometry(two, two, two, two, failure(9, "gone")) {
        Err(GeometryError::Native(err)) => assert_eq!(err.code(), 9),
        other => panic!("unexpected result {:?}", other),
    }
}

#[test]
fn geometry_outside_the_screen_is_refused() {
    let (_context, targets) = context_with(&[0xa0]);
    let half = 0.5f64.to_bits();
    for bad in [2.0f64, 1.000_000_1, -0.25, f64::NAN, f64::INFINITY, f64::NEG_INFINITY] {
        let bad = bad.to_bits();
        for (x, y, w, h) in
            [(bad, half, half, half), (half, bad, half, half), (half, half, bad, half), (half, half, half, bad)]
        {
            match targets[0].geometry(x, y, w, h, ok()) {
                Err(GeometryError::OutOfRange(g)) => {
                    assert_eq!(g, CaptureGeometry { x, y, width: w, height: h });
                    assert!(!g.is_relative());
                },
                other => panic!("unexpected result {:?}", other),
            }
        }
    }
}

#[test]
fn geometry_on_the_edges_is_accepted() {
    let (_context, targets) = context_with(&[0xa0]);
    let zero = 0.0f64.to_bits();
    let one = 1.0f64.to_bits();
    let g = targets[0].geometry(zero, zero, one, one, ok()).unwrap();
    assert_eq!(g, CaptureGeometry { x: zero, y: zero, width: one, height: one });
    let negative_zero = (-0.0f64).to_bits();
    let g = targets[0].geometry(negative_zero, zero, one, one, ok()).unwrap();
    assert_eq!(f64::from_bits(g.x), 0.0);
    assert!(g.is_relative());
}

#[test]
fn target_holds_the_display_of_its_context() {
    let (mut context, mut targets) = context_with(&[0xa0, 0xb0]);
    assert_eq!(targets[0].display(), 0x1000);
    assert_eq!(targets[1].display(), 0x1000);
    let copy = targets[0].clone(&mut context, 0xa1);
    assert_eq!(copy.display(), 0x1000);
    assert_eq!(copy.handle(), 0xa1);
    assert_eq!(targets[0].handle(), 0xa0);
    assert_eq!(context.display().holders(), 4);
    let mut other = X11Context::new(0x2000).unwrap();
    let theirs = other.capturables(&[0xc0], 1, ok()).unwrap().pop().unwrap();
    assert_eq!(theirs.display(), 0x2000);
    assert_eq!(theirs.release(&mut other), Teardown { destroy: 0xc0, close_display: None });
    assert_eq!(context.display().holders(), 4);
    let last = targets.pop().unwrap();
    assert_eq!(last.release(&mut context), Teardown { destroy: 0xb0, close_display: None });
}

fn relative(v: f64) -> bool {
    let bits = v.to_bits();
    CaptureGeometry { x: bits, y: 0, width: 0, height: 0 }.is_relative()
        && CaptureGeometry { x: 0, y: bits, width: 0, height: 0 }.is_relative()
        && CaptureGeometry { x: 0, y: 0, width: bits, height: 0 }.is_relative()
        && CaptureGeometry { x: 0, y: 0, width: 0, height: bits }.is_relative()
}

#[test]
fn relative_geometry_is_between_zero_and_one() {
    let samples = [
        0.0,
        -0.0,
        1.0,
        0.5,
        f64::MIN_POSITIVE,
        5e-324,
        0.999_999_999_999_999_9,
        1.000_000_000_000_000_2,
        1.5,
        2.0,
        -0.1,
        -5e-324,
        -1.0,
        f64::MAX,
        f64::MIN,
        f64::INFINITY,
        f64::NEG_INFINITY,
        f64::NAN,
        -f64::NAN,
    ];
    for v in samples {
        assert_eq!(relative(v), (0.0..=1.0).contains(&v), "{}", v);
    }
    let mut v = 0.0;
    while v < 2.0 {
        assert_eq!(relative(v), v <= 1.0);
        assert_eq!(relative(-v), v == 0.0);
        v += 1.0 / 1024.0;
    }
}

#[test]
fn one_field_out_of_range_is_enough() {
    let half = 0.5f64.to_bits();
    let two = 2.0f64.to_bits();
    assert!(CaptureGeometry { x: half, y: half, width: half, height: half }.is_relative());
    assert!(!CaptureGeometry { x: two, y: half, width: half, height: half }.is_relative());
    assert!(!CaptureGeometry { x: half, y: two, width: half, height: half }.is_relative());
    assert!(!CaptureGeometry { x: half, y: half, width: two, height: half }.is_relative());
    assert!(!CaptureGeometry { x: half, y: half, width: half, height: two }.is_relative());
}

#[test]
fn before_input_reports_the_native_outcome() {
    let (_context, mut targets) = context_with(&[0xa0]);
    assert!(targets[0].before_input(ok()).is_ok());
    let err = targets[0].before_input(failure(4, "cannot raise")).unwrap_err();
    assert_eq!(err.code(), 4);
    assert_eq!(err.message, "cannot raise");
    assert_eq!(targets[0].handle(), 0xa0);
    assert!(targets[0].before_input(ok()).is_ok());
}

#[test]
fn name_of_a_target() {
    let (_context, targets) = context_with(&[0xa0]);
    assert_eq!(targets[0].name(b"Desktop"), "Desktop");
    assert_eq!(targets[0].name("Fen\u{ea}tre \u{2014} \u{1f5bc}".as_bytes()), "Fen\u{ea}tre \u{2014} \u{1f5bc}");
    assert_eq!(targets[0].name(b""), "");
}

#[test]
fn name_with_invalid_bytes_is_still_text() {
    let (_context, targets) = context_with(&[0xa0]);
    assert_eq!(targets[0].name(b"bad\xffname"), "bad\u{fffd}name");
    assert_eq!(targets[0].name(b"\xc3"), "\u{fffd}");
}

#[test]
fn failed_device_mapping_is_advisory() {
    let mut context = X11Context::new(0x1000).unwrap();
    let out = context.map_input_device_to_entire_screen(Some(failure(1, "no such device")));
    assert_eq!(out.code(), 1);
    assert!(out.is_err());
    assert_eq!(out.message, "no such device");
    assert_eq!(context.display().holders(), 1);
    let out = context.map_input_device_to_entire_screen(Some(ok()));
    assert!(!out.is_err());
    let handles = [0xa0usize];
    assert_eq!(context.capturables(&handles, 1, ok()).unwrap().len(), 1);
}

#[test]
fn mapping_request_carries_display_name_and_flag() {
    let context = X11Context::new(0x1000).unwrap();
    assert_eq!(
        context.map_input_request(b"Wacom Pen", true),
        Some((0x1000, b"Wacom Pen\0".to_vec(), 1))
    );
    assert_eq!(
        context.map_input_request(b"Touchscreen", false),
        Some((0x1000, b"Touchscreen\0".to_vec(), 0))
    );
    assert_eq!(context.map_input_request(b"", false), Some((0x1000, vec![0], 0)));
    let name = "Stift \u{270e}";
    let request = context.map_input_request(name.as_bytes(), true).unwrap();
    assert_eq!(&request.1[..request.1.len() - 1], name.as_bytes());
    assert_eq!(request.1.last(), Some(&0));
}

#[test]
fn device_name_with_nul_gives_no_request_and_an_advisory_outcome() {
    let mut context = X11Context::new(0x1000).unwrap();
    assert_eq!(context.map_input_request(b"bad\0name", true), None);
    assert_eq!(context.map_input_request(b"\0", false), None);
    assert_eq!(context.map_input_request(b"trailing\0", false), None);
    let out = context.map_input_device_to_entire_screen(None);
    assert_eq!(CODE_INVALID_DEVICE_NAME, -1);
    assert_eq!(out.code(), CODE_INVALID_DEVICE_NAME);
    assert!(out.is_err());
    assert_eq!(out.message, "device name holds a NUL byte");
    // The context is as before and can be used.
    assert_eq!(context.display().holders(), 1);
    assert!(!context.display().is_closed());
    assert_eq!(context.capturables(&[0xa0], 1, ok()).unwrap().len(), 1);
}
