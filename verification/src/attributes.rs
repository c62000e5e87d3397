//! The tray icon's mutable configuration: a snapshot of independently
//! optional attributes, plus the handle type standing for the external menu
//! capability.

use vstd::prelude::*;

use crate::icon::{Icon, IconView};

verus! {

/// A handle to a native context menu supplied by the external menu
/// collaborator: an opaque native handle plus the number of items the menu
/// holds (the macOS click policy opens a menu only when it has items).
#[derive(Clone, Copy, Debug, PartialEq, Eq, Structural)]
pub struct MenuHandle {
    /// The native menu handle, as an opaque integer.
    pub handle: u64,
    /// How many items the menu holds.
    pub items: u32,
}

/// Attributes to use when creating a tray icon. Every field is
/// independently optional; this is pure configuration, not behavior.
#[derive(Clone, Debug)]
pub struct TrayIconAttributes {
    /// Tray icon tooltip. Unsupported on Linux.
    pub tooltip: Option<String>,
    /// Tray menu. On Linux, once a menu is set it cannot be removed.
    pub menu: Option<MenuHandle>,
    /// Tray icon image.
    pub icon: Option<Icon>,
    /// Tray icon temp dir path, where the staged icon file is written.
    /// Linux only.
    pub temp_dir_path: Option<String>,
    /// Use the icon as a template. macOS only.
    pub icon_is_template: bool,
    /// Whether to show the tray menu on left click, default true. macOS
    /// only.
    pub menu_on_left_click: bool,
    /// Tray icon title. Unsupported on Windows.
    pub title: Option<String>,
}

/// The mathematical content of an attribute snapshot.
#[verifier::ext_equal]
pub ghost struct AttrsView {
    pub tooltip: Option<Seq<char>>,
    pub menu: Option<MenuHandle>,
    pub icon: Option<IconView>,
    pub temp_dir_path: Option<Seq<char>>,
    pub icon_is_template: bool,
    pub menu_on_left_click: bool,
    pub title: Option<Seq<char>>,
}

impl View for TrayIconAttributes {
    type V = AttrsView;

    open spec fn view(&self) -> AttrsView {
        AttrsView {
            tooltip: match self.tooltip {
                Some(s) => Some(s@),
                None => None,
            },
            menu: self.menu,
            icon: match self.icon {
                Some(i) => Some(i@),
                None => None,
            },
            temp_dir_path: match self.temp_dir_path {
                Some(s) => Some(s@),
                None => None,
            },
            icon_is_template: self.icon_is_template,
            menu_on_left_click: self.menu_on_left_click,
            title: match self.title {
                Some(s) => Some(s@),
                None => None,
            },
        }
    }
}

impl Default for TrayIconAttributes {
    fn default() -> (r: Self)
        ensures
            r@ == (AttrsView {
                tooltip: None,
                menu: None,
                icon: None,
                temp_dir_path: None,
                icon_is_template: false,
                menu_on_left_click: true,
                title: None,
            }),
    {
        TrayIconAttributes {
            tooltip: None,
            menu: None,
            icon: None,
            temp_dir_path: None,
            icon_is_template: false,
            menu_on_left_click: true,
            title: None,
        }
    }
}

} // verus!
