use tray_icon::attributes::{MenuHandle, TrayIconAttributes};
use tray_icon::error::Error;
use tray_icon::event::{MouseButton, MouseButtonState, TrayIconEvent};
use tray_icon::geometry::{PhysicalPosition, PhysicalSize, Rect};
use tray_icon::icon::Icon;
use tray_icon::macos::{
    click_action, mac_tray_rect, make_mouse_event, other_mouse_button, ClickAction, MacCommand,
    MacTrayIcon, MouseEventType,
};
use tray_icon::tray_icon_id::TrayIconId;

fn red_icon_16() -> Icon {
    let mut buf = Vec::new();
    for _ in 0..(16 * 16) {
        buf.extend_from_slice(&[255, 0, 0, 255]);
    }
    Icon::from_rgba(buf, 16, 16).unwrap()
}

#[test]
fn off_main_thread_is_rejected() {
    let attrs = TrayIconAttributes::default();
    match MacTrayIcon::new(false, TrayIconId::new("m"), attrs) {
        Err(Error::NotMainThread) => {}
        other => panic!("expected the main-thread error, got {:?}", other.map(|_| ())),
    }
}

#[test]
fn not_main_thread_message() {
    assert_eq!(Error::NotMainThread.message(), "not on the main thread");
}

#[test]
fn tooltip_cleared_scenario() {
    // the concrete scenario: id "main", 16x16 all-opaque-red icon,
    // tooltip "hello"; clearing the tooltip reads back as absent
    let mut attrs = TrayIconAttributes::default();
    attrs.icon = Some(red_icon_16());
    attrs.tooltip = Some(String::from("hello"));
    let (mut tray, _) = MacTrayIcon::new(true, TrayIconId::new("main"), attrs).unwrap();
    assert_eq!(tray.tooltip(), Some(String::from("hello")));

    let cmds = tray.set_tooltip(None).unwrap();
    assert_eq!(tray.tooltip(), None);
    // the native tooltip is cleared too
    assert!(matches!(
        cmds[..],
        [MacCommand::SetToolTip { tooltip: None }, MacCommand::UpdateDimensions]
    ));
}

#[test]
fn mac_visibility_roundtrip_restores_attributes() {
    let menu = MenuHandle { handle: 5, items: 2 };
    let mut attrs = TrayIconAttributes::default();
    attrs.icon = Some(red_icon_16());
    attrs.tooltip = Some(String::from("tip"));
    attrs.title = Some(String::from("title"));
    attrs.menu = Some(menu);

    let (mut tray, _) = MacTrayIcon::new(true, TrayIconId::new("m"), attrs.clone()).unwrap();
    let (fresh, fresh_cmds) = MacTrayIcon::new(true, TrayIconId::new("m"), attrs).unwrap();

    tray.set_visible(false).unwrap();
    assert!(!tray.visible());
    let show_cmds = tray.set_visible(true).unwrap();

    // observably equivalent to the freshly constructed driver
    assert!(tray.visible());
    assert_eq!(tray.icon().unwrap().rgba(), fresh.icon().unwrap().rgba());
    assert_eq!(tray.tooltip(), fresh.tooltip());
    assert_eq!(tray.title(), fresh.title());
    assert_eq!(tray.menu(), fresh.menu());
    // and the native objects are rebuilt exactly as at construction
    assert_eq!(show_cmds.len(), fresh_cmds.len());
}

#[test]
fn click_policy() {
    let filled = Some(MenuHandle { handle: 1, items: 2 });
    let empty = Some(MenuHandle { handle: 1, items: 0 });

    // right click always opens a menu with entries
    assert_eq!(click_action(filled, false, MouseButton::Right), ClickAction::OpenMenu);
    // left click opens it only when the attribute allows
    assert_eq!(click_action(filled, true, MouseButton::Left), ClickAction::OpenMenu);
    assert_eq!(click_action(filled, false, MouseButton::Left), ClickAction::Highlight);
    // an empty menu never opens: the click only highlights
    assert_eq!(click_action(empty, true, MouseButton::Right), ClickAction::Highlight);
    assert_eq!(click_action(empty, true, MouseButton::Left), ClickAction::Highlight);
    // no menu at all: highlight
    assert_eq!(click_action(None, true, MouseButton::Right), ClickAction::Highlight);
    // middle clicks never open the menu
    assert_eq!(click_action(filled, true, MouseButton::Middle), ClickAction::Highlight);
}

#[test]
fn other_mouse_buttons() {
    assert_eq!(other_mouse_button(2), Some(MouseButton::Middle));
    assert_eq!(other_mouse_button(0), None);
    assert_eq!(other_mouse_button(3), None);
}

#[test]
fn coordinates_are_flipped() {
    // a 40x22 status item whose native frame origin (bottom-left, y up)
    // sits at y = 878 on a 900-pixel-high display: its top edge is at
    // 900 - 878 - 22 = 0 in the shared convention
    let r = mac_tray_rect(1200, 878, 40, 22, 900);
    assert_eq!(r.position, PhysicalPosition { x: 1200, y: 0 });
    assert_eq!(r.size, PhysicalSize { width: 40, height: 22 });

    // a cursor at native y = 890 reads as 10 from the top
    let ev = make_mouse_event(
        &TrayIconId::new("m"),
        MouseEventType::Move,
        None,
        1210,
        890,
        900,
        r,
    );
    match ev {
        TrayIconEvent::Move { id, position, rect } => {
            assert_eq!(id, TrayIconId::new("m"));
            assert_eq!(position, PhysicalPosition { x: 1210, y: 10 });
            assert_eq!(rect, r);
        }
        other => panic!("expected a move event, got {:?}", other),
    }
}

#[test]
fn click_events_are_normalized() {
    let r = mac_tray_rect(0, 0, 10, 10, 100);
    let ev = make_mouse_event(
        &TrayIconId::new("m"),
        MouseEventType::Click,
        Some((MouseButton::Right, MouseButtonState::Down)),
        5,
        95,
        100,
        r,
    );
    assert!(matches!(
        ev,
        TrayIconEvent::Click {
            button: MouseButton::Right,
            button_state: MouseButtonState::Down,
            position: PhysicalPosition { x: 5, y: 5 },
            ..
        }
    ));
}

#[test]
fn set_title_only_writes_present_titles() {
    let (mut tray, _) =
        MacTrayIcon::new(true, TrayIconId::new("m"), TrayIconAttributes::default()).unwrap();
    let cmds = tray.set_title(Some("s"));
    assert!(matches!(cmds[0], MacCommand::SetTitle { .. }));
    assert!(matches!(cmds[1], MacCommand::UpdateDimensions));
    assert_eq!(tray.title(), Some(String::from("s")));

    // clearing updates the mirror but writes no native title
    let cmds2 = tray.set_title(None);
    assert!(matches!(cmds2[..], [MacCommand::UpdateDimensions]));
    assert_eq!(tray.title(), None);
}
