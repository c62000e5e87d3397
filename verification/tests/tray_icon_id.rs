use tray_icon::tray_icon_id::TrayIconId;

#[test]
fn is_eq() {
    assert_eq!(TrayIconId::new("t"), "t",);
    assert_eq!(TrayIconId::new("t"), String::from("t"));
    assert_eq!(TrayIconId::new("t"), &String::from("t"));
    assert_eq!(TrayIconId::new("t"), TrayIconId::new("t"));
    assert_eq!(TrayIconId::new("t"), &TrayIconId::new("t"));
    assert_eq!(&TrayIconId::new("t"), &TrayIconId::new("t"));
    assert_eq!(TrayIconId::new("t").as_ref(), "t");
}

#[test]
fn is_ne() {
    assert!(TrayIconId::new("a") != TrayIconId::new("b"));
    assert!(TrayIconId::new("a") != "b");
    assert!(TrayIconId::new("a") != String::from("ab"));
}

#[test]
fn conversions() {
    assert_eq!(TrayIconId::from(String::from("x")), TrayIconId::new("x"));
    let parsed: TrayIconId = "y".parse().unwrap();
    assert_eq!(parsed, TrayIconId::new("y"));
}

#[test]
fn clone_keeps_value() {
    let id = TrayIconId::new("main");
    let copy = id.clone();
    assert_eq!(id, copy);
    assert_eq!(copy.as_ref(), "main");
}
