use tray_icon::attributes::{MenuHandle, TrayIconAttributes};
use tray_icon::counter::Counter;
use tray_icon::error::Error;
use tray_icon::icon::Icon;
use tray_icon::tray_icon_id::TrayIconId;
use tray_icon::geometry::PhysicalSize;
use tray_icon::{
    NativeCommands, PlatformContext, PlatformTrayIcon, RectQuery, TrayIcon, TrayIconBuilder,
};

fn red_icon_16() -> Icon {
    let mut buf = Vec::new();
    for _ in 0..(16 * 16) {
        buf.extend_from_slice(&[255, 0, 0, 255]);
    }
    Icon::from_rgba(buf, 16, 16).unwrap()
}

#[test]
fn builder_assembles_attributes() {
    let mut counter = Counter::new();
    let builder = TrayIconBuilder::new(&mut counter)
        .with_id(TrayIconId::new("main"))
        .with_icon(red_icon_16())
        .with_tooltip("hello")
        .with_menu(MenuHandle { handle: 4, items: 2 });
    assert_eq!(builder.id(), &TrayIconId::new("main"));

    let (tray, cmds) = builder
        .build(PlatformContext::MacOs { main_thread: true }, &mut counter)
        .unwrap();
    assert_eq!(tray.id(), &TrayIconId::new("main"));
    assert!(matches!(cmds, NativeCommands::MacOs(_)));
}

#[test]
fn builder_auto_assigns_counted_ids() {
    let mut counter = Counter::new();
    let b1 = TrayIconBuilder::new(&mut counter);
    let b2 = TrayIconBuilder::new(&mut counter);
    assert_eq!(b1.id(), &TrayIconId::new("1"));
    assert_eq!(b2.id(), &TrayIconId::new("2"));
}

#[test]
fn facade_tooltip_scenario() {
    // construct with id "main", a 16x16 all-opaque-red icon and tooltip
    // "hello"; clearing the tooltip reads back as absent, with no error
    let mut counter = Counter::new();
    let mut attrs = TrayIconAttributes::default();
    attrs.icon = Some(red_icon_16());
    attrs.tooltip = Some(String::from("hello"));

    let (mut tray, _) = TrayIcon::with_id(
        TrayIconId::new("main"),
        attrs,
        PlatformContext::MacOs { main_thread: true },
        &mut counter,
    )
    .unwrap();

    tray.set_tooltip(None).unwrap();
    match tray.inner_ref() {
        PlatformTrayIcon::MacOs(m) => assert_eq!(m.tooltip(), None),
        other => panic!("expected the macOS driver, got {:?}", other),
    }
}

#[test]
fn facade_visibility_roundtrip() {
    let mut counter = Counter::new();
    let mut attrs = TrayIconAttributes::default();
    attrs.icon = Some(red_icon_16());
    attrs.title = Some(String::from("t"));
    let (mut tray, _) = TrayIcon::new(
        attrs,
        PlatformContext::Gtk { default_base: String::from("/tmp") },
        &mut counter,
    )
    .unwrap();

    tray.set_visible(false).unwrap();
    tray.set_visible(true).unwrap();

    match tray.inner_ref() {
        PlatformTrayIcon::Gtk(g) => {
            assert!(g.visible());
            assert_eq!(g.icon().unwrap().rgba(), red_icon_16().rgba());
            assert_eq!(g.title(), Some(String::from("t")));
        }
        other => panic!("expected the GTK driver, got {:?}", other),
    }
}

#[test]
fn facade_rejects_off_main_thread_macos() {
    let mut counter = Counter::new();
    let r = TrayIcon::new(
        TrayIconAttributes::default(),
        PlatformContext::MacOs { main_thread: false },
        &mut counter,
    );
    assert!(matches!(r, Err(Error::NotMainThread)));
}

#[test]
fn facade_windows_tooltip_two_phase() {
    let mut counter = Counter::new();
    let mut attrs = TrayIconAttributes::default();
    attrs.tooltip = Some(String::from("old"));
    let (mut tray, _) =
        TrayIcon::with_id(TrayIconId::new("w"), attrs, PlatformContext::Windows, &mut counter)
            .unwrap();

    // the command goes out; the mirror commits only on the reported
    // success of the shell call
    tray.set_tooltip(Some("new")).unwrap();
    let r = tray.complete_set_tooltip(Some("new"), Err(String::from("boom")));
    assert!(matches!(r, Err(Error::OsError(m)) if m == "boom"));
    match tray.inner_ref() {
        PlatformTrayIcon::Windows(w) => assert_eq!(w.tooltip(), Some(String::from("old"))),
        other => panic!("expected the Windows driver, got {:?}", other),
    }

    tray.complete_set_tooltip(Some("new"), Ok(())).unwrap();
    match tray.inner_ref() {
        PlatformTrayIcon::Windows(w) => assert_eq!(w.tooltip(), Some(String::from("new"))),
        other => panic!("expected the Windows driver, got {:?}", other),
    }
}

#[test]
fn facade_completion_is_noop_elsewhere() {
    let mut counter = Counter::new();
    let (mut tray, _) = TrayIcon::with_id(
        TrayIconId::new("g"),
        TrayIconAttributes::default(),
        PlatformContext::Gtk { default_base: String::from("/tmp") },
        &mut counter,
    )
    .unwrap();
    // the GTK mirror committed in set_tooltip already; completion reports
    // nothing and succeeds even when handed a failure
    tray.set_tooltip(Some("t")).unwrap();
    assert!(tray.complete_set_tooltip(Some("t"), Err(String::from("ignored"))).is_ok());
}

#[test]
fn facade_rect_queries() {
    let mut counter = Counter::new();
    let (tray, _) = TrayIcon::with_id(
        TrayIconId::new("w"),
        TrayIconAttributes::default(),
        PlatformContext::Windows,
        &mut counter,
    )
    .unwrap();

    let r = tray.rect(RectQuery::Windows { bounds: Some((0, 0, 10, 12)) }).unwrap();
    assert_eq!(r.size, PhysicalSize { width: 10, height: 12 });
    // a failed native query yields nothing
    assert!(tray.rect(RectQuery::Windows { bounds: None }).is_none());
    // so does a query for another platform
    assert!(tray.rect(RectQuery::Gtk).is_none());
}

#[test]
fn facade_windows_construction() {
    let mut counter = Counter::new();
    let mut attrs = TrayIconAttributes::default();
    attrs.tooltip = Some(String::from("w"));
    let (mut tray, cmds) =
        TrayIcon::with_id(TrayIconId::new("w"), attrs, PlatformContext::Windows, &mut counter)
            .unwrap();
    match cmds {
        NativeCommands::Windows(v) => {
            assert!(matches!(v[0], tray_icon::windows::WinCommand::RegisterClass));
            assert!(matches!(v[1], tray_icon::windows::WinCommand::CreateWindow));
            assert!(matches!(v[2], tray_icon::windows::WinCommand::AddIcon { flags: 5, .. }));
        }
        other => panic!("expected Windows commands, got {:?}", other),
    }
    match tray.inner() {
        PlatformTrayIcon::Windows(w) => assert!(w.visible()),
        other => panic!("expected the Windows driver, got {:?}", other),
    }
}
