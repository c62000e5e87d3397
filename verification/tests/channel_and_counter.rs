use tray_icon::channel::EventRouter;
use tray_icon::counter::{format_u32, Counter};
use tray_icon::event::TrayIconEvent;
use tray_icon::geometry::{PhysicalPosition, Rect};
use tray_icon::attributes::TrayIconAttributes;
use tray_icon::geometry::PhysicalSize;
use tray_icon::tray_icon_id::TrayIconId;
use tray_icon::windows::{MouseMsg, WinTrayIcon};

fn sample_event(name: &str) -> TrayIconEvent {
    TrayIconEvent::Enter {
        id: TrayIconId::new(name),
        position: PhysicalPosition { x: 1, y: 2 },
        rect: Rect::default(),
    }
}

#[test]
fn channel_delivers_in_order() {
    let mut router = EventRouter::new();
    assert!(router.try_recv().is_none());

    assert!(router.send(sample_event("a")).is_none());
    assert!(router.send(sample_event("b")).is_none());

    let first = router.try_recv().unwrap();
    let second = router.try_recv().unwrap();
    assert_eq!(first.id(), &TrayIconId::new("a"));
    assert_eq!(second.id(), &TrayIconId::new("b"));
    assert!(router.try_recv().is_none());
}

#[test]
fn handler_mode_bypasses_channel() {
    let mut router = EventRouter::new();
    assert!(router.set_event_handler(true));

    // events come back for the host's callback, and nothing is buffered
    let delivered = router.send(sample_event("x"));
    assert_eq!(delivered.unwrap().id(), &TrayIconId::new("x"));
    assert!(router.try_recv().is_none());
}

#[test]
fn delivery_mode_is_decided_once() {
    let mut router = EventRouter::new();
    // the first send locks the channel mode
    assert!(router.send(sample_event("a")).is_none());
    // a later handler installation is refused
    assert!(!router.set_event_handler(true));
    assert!(router.send(sample_event("b")).is_none());
    assert!(router.try_recv().is_some());
    assert!(router.try_recv().is_some());
}

#[test]
fn explicit_channel_choice_blocks_handler() {
    let mut router = EventRouter::new();
    // configuring with no handler locks the channel mode too
    assert!(!router.set_event_handler(false));
    assert!(!router.set_event_handler(true));
    assert!(router.send(sample_event("a")).is_none());
    assert!(router.try_recv().is_some());
}

#[test]
fn driver_events_reach_sink_in_order() {
    let (mut tray, _) = WinTrayIcon::new(
        TrayIconId::new("w"),
        TrayIconAttributes::default(),
        1,
    );
    let mut router = EventRouter::new();
    let r = Rect {
        position: PhysicalPosition { x: 0, y: 0 },
        size: PhysicalSize { width: 10, height: 10 },
    };

    tray.process_message(&mut router, MouseMsg::MouseMove, PhysicalPosition { x: 1, y: 1 }, r);
    tray.process_message(&mut router, MouseMsg::LButtonDown, PhysicalPosition { x: 1, y: 1 }, r);

    // delivered in the order the native notifications arrived
    assert!(matches!(router.try_recv(), Some(TrayIconEvent::Enter { .. })));
    assert!(matches!(router.try_recv(), Some(TrayIconEvent::Click { .. })));
    assert!(router.try_recv().is_none());
}

#[test]
fn counter_is_monotonic() {
    let mut c = Counter::new();
    assert_eq!(c.next(), 1);
    assert_eq!(c.next(), 2);
    assert_eq!(c.next(), 3);
}

#[test]
fn decimal_formatting() {
    assert_eq!(format_u32(0), "0");
    assert_eq!(format_u32(7), "7");
    assert_eq!(format_u32(10), "10");
    assert_eq!(format_u32(105), "105");
    assert_eq!(format_u32(4294967295), "4294967295");
}
