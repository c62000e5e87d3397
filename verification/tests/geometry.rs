use tray_icon::error::Error;
use tray_icon::geometry::{flip_screen_y, PhysicalPosition, PhysicalSize, Rect};

#[test]
fn rect_contains_half_open_ranges() {
    let r = Rect {
        position: PhysicalPosition { x: 10, y: 20 },
        size: PhysicalSize { width: 5, height: 5 },
    };
    assert!(r.contains(PhysicalPosition { x: 10, y: 20 }));
    assert!(r.contains(PhysicalPosition { x: 14, y: 24 }));
    // the right and bottom edges are exclusive
    assert!(!r.contains(PhysicalPosition { x: 15, y: 20 }));
    assert!(!r.contains(PhysicalPosition { x: 10, y: 25 }));
    assert!(!r.contains(PhysicalPosition { x: 9, y: 20 }));
}

#[test]
fn empty_rect_contains_nothing() {
    let r = Rect::default();
    assert!(!r.contains(PhysicalPosition { x: 0, y: 0 }));
}

#[test]
fn screen_flip_is_its_own_inverse() {
    assert_eq!(flip_screen_y(900, 878), 22);
    assert_eq!(flip_screen_y(900, 22), 878);
    assert_eq!(flip_screen_y(900, flip_screen_y(900, 123)), 123);
}

#[test]
fn error_messages() {
    assert_eq!(Error::OsError(String::from("boom")).message(), "boom");
    assert_eq!(Error::PngEncodingError(String::from("bad")).message(), "bad");
    assert_eq!(Error::NotMainThread.message(), "not on the main thread");
}

#[test]
fn default_rect_is_zero() {
    let r = Rect::default();
    assert_eq!(r.position, PhysicalPosition { x: 0, y: 0 });
    assert_eq!(r.size, PhysicalSize { width: 0, height: 0 });
}
