use tray_icon::attributes::{MenuHandle, TrayIconAttributes};
use tray_icon::gtk::{temp_icon_path, GtkCommand, GtkTrayIcon};
use tray_icon::icon::Icon;

fn solid_icon(rgb: [u8; 3]) -> Icon {
    let mut buf = Vec::new();
    for _ in 0..(8 * 8) {
        buf.extend_from_slice(&[rgb[0], rgb[1], rgb[2], 255]);
    }
    Icon::from_rgba(buf, 8, 8).unwrap()
}

#[test]
fn temp_icon_path_preference_order() {
    let override_dir = String::from("/tmp/tao-tests");

    // an explicit staging directory wins
    let (dir1, _file1) = temp_icon_path(Some(&override_dir), "/tmp", 0, 0);
    assert_eq!(dir1, override_dir);

    // else the runtime directory gets a tray-icon subdirectory
    let (dir2, _file2) = temp_icon_path(None, "/run/user/1000", 0, 0);
    assert_eq!(dir2, String::from("/run/user/1000/tray-icon"));

    // and the temp-dir fallback likewise
    let (dir3, _file3) = temp_icon_path(None, "/tmp", 0, 0);
    assert_eq!(dir3, String::from("/tmp/tray-icon"));
}

#[test]
fn staged_file_names_are_keyed_by_id_and_revision() {
    let (_, file) = temp_icon_path(None, "/tmp", 5, 12);
    assert_eq!(file, String::from("/tmp/tray-icon/tray-icon-5-12.png"));
}

#[test]
fn icon_changes_stage_distinct_files() {
    let mut attrs = TrayIconAttributes::default();
    attrs.icon = Some(solid_icon([255, 0, 0]));
    let (mut tray, _) = GtkTrayIcon::new(3, attrs, "/tmp").unwrap();
    let path_a = tray.icon_path().clone();
    assert_eq!(tray.revision(), 0);

    let cmds = tray.set_icon(Some(solid_icon([0, 0, 255]))).unwrap();
    let path_b = tray.icon_path().clone();

    // two distinct staged files with different revision suffixes
    assert_eq!(tray.revision(), 1);
    assert_ne!(path_a, path_b);
    assert_eq!(tray.staged_paths(), &vec![path_a.clone(), path_b.clone()]);

    // the new file is written and the indicator repointed, but the
    // previous file is not removed before the new one is committed
    assert!(cmds.iter().all(|c| !matches!(c, GtkCommand::RemoveFile { .. })));
    assert!(matches!(&cmds[1], GtkCommand::WriteIconPng { path, .. } if *path == path_b));
    assert!(matches!(&cmds[2], GtkCommand::SetIconPath { icon_path, .. } if *icon_path == path_b));

    // taking the driver down removes both staged files, oldest first
    let down = tray.take_down();
    assert!(matches!(down[0], GtkCommand::SetStatus { active: false }));
    assert!(matches!(&down[1], GtkCommand::RemoveFile { path } if *path == path_a));
    assert!(matches!(&down[2], GtkCommand::RemoveFile { path } if *path == path_b));
}

#[test]
fn menu_cannot_be_detached() {
    let menu_a = MenuHandle { handle: 1, items: 1 };
    let menu_b = MenuHandle { handle: 2, items: 5 };
    let mut attrs = TrayIconAttributes::default();
    attrs.menu = Some(menu_a);
    let (mut tray, _) = GtkTrayIcon::new(1, attrs, "/tmp").unwrap();

    // clearing is a no-op while a menu is attached
    let cmds = tray.set_menu(None);
    assert!(cmds.is_empty());
    assert_eq!(tray.menu(), Some(menu_a));

    // but the menu can be replaced
    let cmds2 = tray.set_menu(Some(menu_b));
    assert!(matches!(cmds2[..], [GtkCommand::SetMenu { .. }]));
    assert_eq!(tray.menu(), Some(menu_b));
}

#[test]
fn tooltip_is_ignored() {
    let (mut tray, _) = GtkTrayIcon::new(1, TrayIconAttributes::default(), "/tmp").unwrap();
    let cmds = tray.set_tooltip(Some("hi")).unwrap();
    assert!(cmds.is_empty());
}

#[test]
fn rect_is_unavailable() {
    let (tray, _) = GtkTrayIcon::new(1, TrayIconAttributes::default(), "/tmp").unwrap();
    assert!(tray.rect().is_none());
}

#[test]
fn gtk_visibility_roundtrip_restores_attributes() {
    let menu = MenuHandle { handle: 9, items: 2 };
    let mut attrs = TrayIconAttributes::default();
    attrs.icon = Some(solid_icon([0, 255, 0]));
    attrs.title = Some(String::from("t"));
    attrs.menu = Some(menu);
    let (mut tray, _) = GtkTrayIcon::new(2, attrs.clone(), "/tmp").unwrap();
    let (fresh, _) = GtkTrayIcon::new(2, attrs, "/tmp").unwrap();

    let hide = tray.set_visible(false).unwrap();
    assert!(matches!(hide[..], [GtkCommand::SetStatus { active: false }]));
    assert!(!tray.visible());
    tray.set_visible(true).unwrap();

    assert!(tray.visible());
    assert_eq!(tray.icon().unwrap().rgba(), fresh.icon().unwrap().rgba());
    assert_eq!(tray.title(), fresh.title());
    assert_eq!(tray.menu(), fresh.menu());
    assert_eq!(tray.icon_path(), fresh.icon_path());
}

#[test]
fn new_stages_first_icon_file() {
    let mut attrs = TrayIconAttributes::default();
    attrs.icon = Some(solid_icon([1, 2, 3]));
    attrs.title = Some(String::from("label"));
    let (tray, cmds) = GtkTrayIcon::new(7, attrs, "/tmp").unwrap();

    assert_eq!(tray.icon_path(), &String::from("/tmp/tray-icon/tray-icon-7-0.png"));
    assert!(matches!(cmds[0], GtkCommand::CreateIndicator));
    assert!(matches!(&cmds[1], GtkCommand::CreateDirAll { path } if path == "/tmp/tray-icon"));
    assert!(matches!(&cmds[2], GtkCommand::WriteIconPng { path, .. } if path == tray.icon_path()));
    assert!(matches!(&cmds[3], GtkCommand::SetIconPath { .. }));
    assert!(matches!(&cmds[4], GtkCommand::SetLabel { text } if text == "label"));
}
