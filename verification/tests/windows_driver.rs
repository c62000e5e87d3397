use tray_icon::attributes::{MenuHandle, TrayIconAttributes};
use tray_icon::event::TrayIconEvent;
use tray_icon::geometry::{PhysicalPosition, PhysicalSize, Rect};
use tray_icon::icon::Icon;
use tray_icon::tray_icon_id::TrayIconId;
use tray_icon::windows::{encode_wide, notify_icon_flags, tooltip_buffer, MouseMsg, WinCommand, WinTrayIcon};

fn red_icon() -> Icon {
    let mut buf = Vec::new();
    for _ in 0..(16 * 16) {
        buf.extend_from_slice(&[255, 0, 0, 255]);
    }
    Icon::from_rgba(buf, 16, 16).unwrap()
}

fn attrs_with(icon: Option<Icon>, tooltip: Option<&str>, menu: Option<MenuHandle>) -> TrayIconAttributes {
    let mut attrs = TrayIconAttributes::default();
    attrs.icon = icon;
    attrs.tooltip = tooltip.map(|t| t.to_string());
    attrs.menu = menu;
    attrs
}

fn icon_rect() -> Rect {
    Rect {
        position: PhysicalPosition { x: 100, y: 0 },
        size: PhysicalSize { width: 24, height: 24 },
    }
}

fn pos(x: i64, y: i64) -> PhysicalPosition {
    PhysicalPosition { x, y }
}

#[test]
fn move_events_deduplicated() {
    let (mut tray, _) = WinTrayIcon::new(
        TrayIconId::new("w"),
        attrs_with(None, None, None),
        1,
    );
    let p = pos(110, 10);
    let r = icon_rect();

    // first move while not hovering synthesizes Enter
    let (e1, _) = tray.on_tray_message(MouseMsg::MouseMove, p, r);
    assert!(matches!(e1, Some(TrayIconEvent::Enter { .. })));

    // second move at the same coordinate is the first recorded move
    let (e2, cmds2) = tray.on_tray_message(MouseMsg::MouseMove, p, r);
    assert!(matches!(e2, Some(TrayIconEvent::Move { .. })));
    assert!(matches!(cmds2[..], [WinCommand::SetLeaveTimer]));

    // further moves at the unchanged coordinate are suppressed
    for _ in 0..5 {
        let (e, cmds) = tray.on_tray_message(MouseMsg::MouseMove, p, r);
        assert!(e.is_none());
        assert!(cmds.is_empty());
    }

    // a move at a new coordinate is reported again
    let (e3, _) = tray.on_tray_message(MouseMsg::MouseMove, pos(111, 10), r);
    assert!(matches!(e3, Some(TrayIconEvent::Move { .. })));
}

#[test]
fn no_second_enter_without_leave() {
    let (mut tray, _) = WinTrayIcon::new(
        TrayIconId::new("w"),
        attrs_with(None, None, None),
        1,
    );
    let inside = pos(110, 10);
    let outside = pos(500, 500);
    let r = icon_rect();

    let (e1, _) = tray.on_tray_message(MouseMsg::MouseMove, inside, r);
    assert!(matches!(e1, Some(TrayIconEvent::Enter { .. })));

    // more moves never synthesize a second Enter
    let (e2, _) = tray.on_tray_message(MouseMsg::MouseMove, inside, r);
    assert!(matches!(e2, Some(TrayIconEvent::Move { .. })));
    let (e3, _) = tray.on_tray_message(MouseMsg::MouseMove, pos(111, 11), r);
    assert!(matches!(e3, Some(TrayIconEvent::Move { .. })));

    // the polling timer sees the cursor outside and synthesizes Leave
    let (e4, cmds4) = tray.on_leave_timer(Some(outside), Some(r));
    assert!(matches!(e4, Some(TrayIconEvent::Leave { .. })));
    assert!(matches!(cmds4[..], [WinCommand::KillLeaveTimer]));

    // only now can Enter be emitted again
    let (e5, _) = tray.on_tray_message(MouseMsg::MouseMove, inside, r);
    assert!(matches!(e5, Some(TrayIconEvent::Enter { .. })));
}

#[test]
fn leave_timer_inside_rect_keeps_hover() {
    let (mut tray, _) = WinTrayIcon::new(
        TrayIconId::new("w"),
        attrs_with(None, None, None),
        1,
    );
    let inside = pos(110, 10);
    let r = icon_rect();
    tray.on_tray_message(MouseMsg::MouseMove, inside, r);
    tray.on_tray_message(MouseMsg::MouseMove, inside, r);

    // cursor still inside: no Leave, no timer cancellation
    let (e, cmds) = tray.on_leave_timer(Some(inside), Some(r));
    assert!(e.is_none());
    assert!(cmds.is_empty());

    // and no new Enter: the hover is still on
    let (e2, _) = tray.on_tray_message(MouseMsg::MouseMove, pos(112, 12), r);
    assert!(matches!(e2, Some(TrayIconEvent::Move { .. })));
}

#[test]
fn clicks_carry_button_and_state() {
    let (mut tray, _) = WinTrayIcon::new(
        TrayIconId::new("w"),
        attrs_with(None, None, None),
        1,
    );
    let p = pos(110, 10);
    let r = icon_rect();

    let (e, _) = tray.on_tray_message(MouseMsg::LButtonDown, p, r);
    match e {
        Some(TrayIconEvent::Click { id, position, rect, button, button_state }) => {
            assert_eq!(id, TrayIconId::new("w"));
            assert_eq!(position, p);
            assert_eq!(rect, r);
            assert_eq!(button, tray_icon::event::MouseButton::Left);
            assert_eq!(button_state, tray_icon::event::MouseButtonState::Down);
        }
        other => panic!("expected a click event, got {:?}", other),
    }

    let (e2, _) = tray.on_tray_message(MouseMsg::RButtonUp, p, r);
    assert!(matches!(
        e2,
        Some(TrayIconEvent::Click {
            button: tray_icon::event::MouseButton::Right,
            button_state: tray_icon::event::MouseButtonState::Up,
            ..
        })
    ));

    let (e3, _) = tray.on_tray_message(MouseMsg::MButtonDblClk, p, r);
    assert!(matches!(
        e3,
        Some(TrayIconEvent::DoubleClick { button: tray_icon::event::MouseButton::Middle, .. })
    ));
}

#[test]
fn right_click_shows_menu() {
    let menu = MenuHandle { handle: 42, items: 3 };
    let (mut tray, _) = WinTrayIcon::new(
        TrayIconId::new("w"),
        attrs_with(None, None, Some(menu)),
        1,
    );
    let p = pos(110, 10);
    let r = icon_rect();

    let (_, cmds) = tray.on_tray_message(MouseMsg::RButtonDown, p, r);
    assert!(matches!(
        cmds[..],
        [WinCommand::ShowMenu { menu: MenuHandle { handle: 42, items: 3 }, x: 110, y: 10 }]
    ));

    // menu_on_left_click defaults to true, so a left press shows it too
    let (_, cmds2) = tray.on_tray_message(MouseMsg::LButtonDown, p, r);
    assert!(matches!(cmds2[..], [WinCommand::ShowMenu { .. }]));

    // a middle press never does
    let (_, cmds3) = tray.on_tray_message(MouseMsg::MButtonDown, p, r);
    assert!(cmds3.is_empty());
}

#[test]
fn taskbar_restart_reregisters_unchanged() {
    let menu = MenuHandle { handle: 7, items: 1 };
    let (mut tray, _) = WinTrayIcon::new(
        TrayIconId::new("w"),
        attrs_with(Some(red_icon()), Some("hi"), Some(menu)),
        9,
    );
    let icon_before = tray.icon().unwrap().rgba().clone();
    let tooltip_before = tray.tooltip();

    let cmds = tray.on_taskbar_restart();

    // the icon is removed and re-added with identical attributes
    assert_eq!(cmds.len(), 3);
    assert!(matches!(cmds[0], WinCommand::DeleteIcon { internal_id: 9 }));
    assert!(matches!(cmds[1], WinCommand::CreateNativeBitmap { width: 16, height: 16, .. }));
    match &cmds[2] {
        WinCommand::AddIcon { internal_id, flags, sz_tip } => {
            assert_eq!(*internal_id, 9);
            // callback message, icon and tip flags
            assert_eq!(*flags, 7);
            // the tooltip buffer holds the wide "hi", NUL-terminated,
            // padded out to its 128 units
            assert_eq!(sz_tip.len(), 128);
            assert_eq!(&sz_tip[..3], &['h' as u16, 'i' as u16, 0]);
            assert!(sz_tip[3..].iter().all(|u| *u == 0));
        }
        other => panic!("expected the shell registration, got {:?}", other),
    }

    // the mirrored state is untouched: recovery is invisible to the app
    assert_eq!(tray.icon().unwrap().rgba(), &icon_before);
    assert_eq!(tray.tooltip(), tooltip_before);
    assert!(tray.visible());
}

#[test]
fn win_visibility_roundtrip_restores_attributes() {
    let menu = MenuHandle { handle: 3, items: 2 };
    let (mut tray, _) = WinTrayIcon::new(
        TrayIconId::new("w"),
        attrs_with(Some(red_icon()), Some("tip"), Some(menu)),
        1,
    );
    let (fresh, _) = WinTrayIcon::new(
        TrayIconId::new("w"),
        attrs_with(Some(red_icon()), Some("tip"), Some(menu)),
        1,
    );

    tray.set_visible(false);
    assert!(!tray.visible());
    tray.set_visible(true);

    assert!(tray.visible());
    assert_eq!(tray.icon().unwrap().rgba(), fresh.icon().unwrap().rgba());
    assert_eq!(tray.tooltip(), fresh.tooltip());
    assert_eq!(tray.menu(), fresh.menu());
}

#[test]
fn tooltip_commits_only_after_native_success() {
    let (mut tray, _) = WinTrayIcon::new(
        TrayIconId::new("w"),
        attrs_with(None, Some("old"), None),
        1,
    );

    // the first half only builds the shell command; the mirror keeps the
    // old tooltip until the shell answers
    let cmds = tray.set_tooltip(Some("new"));
    assert!(matches!(&cmds[..], [WinCommand::ModifyTooltip { internal_id: 1, sz_tip }]
        if sz_tip[..4] == ['n' as u16, 'e' as u16, 'w' as u16, 0]));
    assert_eq!(tray.tooltip(), Some(String::from("old")));

    // a failed shell call leaves the mirror unchanged and surfaces the
    // native error
    let r = tray.complete_set_tooltip(Some("new"), Err(String::from("access denied")));
    assert!(matches!(r, Err(tray_icon::error::Error::OsError(m)) if m == "access denied"));
    assert_eq!(tray.tooltip(), Some(String::from("old")));

    // a successful one commits the mirror
    tray.complete_set_tooltip(Some("new"), Ok(())).unwrap();
    assert_eq!(tray.tooltip(), Some(String::from("new")));
}

#[test]
fn icon_commits_only_after_native_success() {
    let (mut tray, _) = WinTrayIcon::new(
        TrayIconId::new("w"),
        attrs_with(Some(red_icon()), None, None),
        1,
    );
    let old_rgba = tray.icon().unwrap().rgba().clone();

    let cmds = tray.set_icon(&None);
    assert!(matches!(cmds[..], [WinCommand::ModifyIcon { internal_id: 1, has_icon: false }]));
    // mirror untouched until the shell answers
    assert_eq!(tray.icon().unwrap().rgba(), &old_rgba);

    let r = tray.complete_set_icon(None, Err(String::from("shell gone")));
    assert!(matches!(r, Err(tray_icon::error::Error::OsError(m)) if m == "shell gone"));
    assert_eq!(tray.icon().unwrap().rgba(), &old_rgba);

    tray.complete_set_icon(None, Ok(())).unwrap();
    assert!(tray.icon().is_none());
}

#[test]
fn tooltip_buffer_truncates_at_128_units() {
    let long: String = std::iter::repeat('x').take(200).collect();
    let buf = tooltip_buffer(Some(&long));
    // the shell buffer holds exactly 128 units; an overlong tooltip fills
    // it completely, leaving no terminator
    assert_eq!(buf.len(), 128);
    assert!(buf.iter().all(|u| *u == 'x' as u16));

    let short = tooltip_buffer(Some("ab"));
    assert_eq!(short.len(), 128);
    assert_eq!(&short[..3], &['a' as u16, 'b' as u16, 0]);
    assert!(short[3..].iter().all(|u| *u == 0));

    let none = tooltip_buffer(None);
    assert_eq!(none.len(), 128);
    assert!(none.iter().all(|u| *u == 0));
}

#[test]
fn encode_wide_handles_surrogate_pairs() {
    // a character beyond the basic plane becomes a surrogate pair
    let w = encode_wide("\u{1F600}");
    assert_eq!(w, vec![0xD83D, 0xDE00, 0]);
    let a = encode_wide("A");
    assert_eq!(a, vec![0x41, 0]);
}

#[test]
fn notify_flags_values() {
    assert_eq!(notify_icon_flags(false, false), 1);
    assert_eq!(notify_icon_flags(true, false), 3);
    assert_eq!(notify_icon_flags(false, true), 5);
    assert_eq!(notify_icon_flags(true, true), 7);
}

#[test]
fn rect_from_bounds_conversion() {
    let r = Rect::from_bounds(10, 20, 34, 44);
    assert_eq!(r.position, PhysicalPosition { x: 10, y: 20 });
    assert_eq!(r.size, PhysicalSize { width: 24, height: 24 });
    // a degenerate rectangle clamps to zero size
    let d = Rect::from_bounds(10, 20, 5, 15);
    assert_eq!(d.size, PhysicalSize { width: 0, height: 0 });
}
