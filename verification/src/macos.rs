//! The macOS driver: a status-bar item plus an invisible overlay view that
//! intercepts mouse events; it must run on the main thread, witnessed by a
//! capability flag the host supplies. Hiding destroys the native object
//! graph and showing recreates it from the mirrored attributes, because the
//! native API has no "hidden but retained" state for status items. Native
//! calls are returned as [`MacCommand`] values for the host to perform.
//!
//! Native screen coordinates have a bottom-left origin with y increasing
//! upward; every reported position and rectangle is flipped to the shared
//! top-left-origin convention using the main display's pixel height.

use vstd::prelude::*;

use crate::attributes::{AttrsView, MenuHandle, TrayIconAttributes};
use crate::error::Error;
use crate::event::{MouseButton, MouseButtonState, TrayIconEvent, TrayIconEventView};
use crate::geometry::{PhysicalPosition, PhysicalSize, Rect};
use crate::icon::{png_of, Icon, IconView};
use crate::tray_icon_id::TrayIconId;

verus! {

/// One native call for the host to perform on the main thread.
#[derive(Clone, Debug)]
pub enum MacCommand {
    /// Create the status-bar item and its overlay view.
    CreateStatusItem,
    /// Remove the status-bar item and its overlay view.
    RemoveStatusItem,
    /// Set the status item button's image from PNG bytes, scaled for the
    /// status bar, with the template flag.
    SetButtonImage { png: Vec<u8>, width: u32, height: u32, is_template: bool },
    /// Clear the status item button's image.
    ClearButtonImage,
    /// Attach (or detach) the given menu.
    SetMenu { menu: Option<MenuHandle> },
    /// Set or clear the button's tooltip.
    SetToolTip { tooltip: Option<String> },
    /// Set the button's title text.
    SetTitle { title: String },
    /// Mark the button's current image as a template (or not).
    SetImageTemplate { is_template: bool },
    /// Re-sync the overlay view's frame with the button's frame.
    UpdateDimensions,
    /// Open the attached menu by performing a button click.
    PerformClick,
    /// Visually highlight the button without opening a menu.
    Highlight,
}

/// The mathematical content of a [`MacCommand`].
#[verifier::ext_equal]
pub ghost enum MacCommandView {
    CreateStatusItem,
    RemoveStatusItem,
    SetButtonImage { png: Seq<u8>, width: u32, height: u32, is_template: bool },
    ClearButtonImage,
    SetMenu { menu: Option<MenuHandle> },
    SetToolTip { tooltip: Option<Seq<char>> },
    SetTitle { title: Seq<char> },
    SetImageTemplate { is_template: bool },
    UpdateDimensions,
    PerformClick,
    Highlight,
}

impl View for MacCommand {
    type V = MacCommandView;

    open spec fn view(&self) -> MacCommandView {
        match self {
            MacCommand::CreateStatusItem => MacCommandView::CreateStatusItem,
            MacCommand::RemoveStatusItem => MacCommandView::RemoveStatusItem,
            MacCommand::SetButtonImage { png, width, height, is_template } => {
                MacCommandView::SetButtonImage {
                    png: png@,
                    width: *width,
                    height: *height,
                    is_template: *is_template,
                }
            },
            MacCommand::ClearButtonImage => MacCommandView::ClearButtonImage,
            MacCommand::SetMenu { menu } => MacCommandView::SetMenu { menu: *menu },
            MacCommand::SetToolTip { tooltip } => MacCommandView::SetToolTip {
                tooltip: match tooltip {
                    Some(t) => Some(t@),
                    None => None,
                },
            },
            MacCommand::SetTitle { title } => MacCommandView::SetTitle { title: title@ },
            MacCommand::SetImageTemplate { is_template } => MacCommandView::SetImageTemplate {
                is_template: *is_template,
            },
            MacCommand::UpdateDimensions => MacCommandView::UpdateDimensions,
            MacCommand::PerformClick => MacCommandView::PerformClick,
            MacCommand::Highlight => MacCommandView::Highlight,
        }
    }
}

/// The views of a command list, in order.
pub open spec fn mac_cmd_views(cmds: Seq<MacCommand>) -> Seq<MacCommandView> {
    cmds.map_values(|c: MacCommand| c@)
}

/// The commands that build the native object graph from the given
/// attributes: create the status item and overlay view, set or clear the
/// button image, attach the menu when one is configured, set the tooltip,
/// and set the title when one is configured.
pub open spec fn mac_create_cmd_views(
    icon: Option<IconView>,
    tooltip: Option<Seq<char>>,
    title: Option<Seq<char>>,
    menu: Option<MenuHandle>,
    is_template: bool,
) -> Seq<MacCommandView> {
    seq![MacCommandView::CreateStatusItem] + (match icon {
        Some(iv) => seq![
            MacCommandView::SetButtonImage {
                png: png_of(iv.rgba, iv.width, iv.height),
                width: iv.width,
                height: iv.height,
                is_template,
            },
        ],
        None => seq![MacCommandView::ClearButtonImage],
    }) + (match menu {
        Some(m) => seq![MacCommandView::SetMenu { menu: Some(m) }],
        None => seq![],
    }) + seq![MacCommandView::SetToolTip { tooltip }] + (match title {
        Some(t) => seq![MacCommandView::SetTitle { title: t }],
        None => seq![],
    })
}

/// The mathematical content of the macOS driver's state.
#[verifier::ext_equal]
pub ghost struct MacTrayView {
    pub id: Seq<char>,
    pub icon: Option<IconView>,
    pub tooltip: Option<Seq<char>>,
    pub title: Option<Seq<char>>,
    pub menu: Option<MenuHandle>,
    pub icon_is_template: bool,
    pub menu_on_left_click: bool,
    pub created: bool,
}

/// The live macOS tray icon driver state: the mirrored attributes and
/// whether the native object graph currently exists. The status item and
/// overlay view live with the host, which performs the returned commands.
#[derive(Debug)]
pub struct MacTrayIcon {
    id: TrayIconId,
    icon: Option<Icon>,
    tooltip: Option<String>,
    title: Option<String>,
    menu: Option<MenuHandle>,
    icon_is_template: bool,
    menu_on_left_click: bool,
    created: bool,
}

impl View for MacTrayIcon {
    type V = MacTrayView;

    closed spec fn view(&self) -> MacTrayView {
        MacTrayView {
            id: self.id@,
            icon: match self.icon {
                Some(i) => Some(i@),
                None => None,
            },
            tooltip: match self.tooltip {
                Some(t) => Some(t@),
                None => None,
            },
            title: match self.title {
                Some(t) => Some(t@),
                None => None,
            },
            menu: self.menu,
            icon_is_template: self.icon_is_template,
            menu_on_left_click: self.menu_on_left_click,
            created: self.created,
        }
    }
}

/// Builds the creation command list from the given configuration. Fails
/// only when the icon cannot be encoded as PNG.
fn create_commands(
    icon: &Option<Icon>,
    tooltip: &Option<String>,
    title: &Option<String>,
    menu: &Option<MenuHandle>,
    is_template: bool,
) -> (r: Result<Vec<MacCommand>, Error>)
    ensures
        r matches Err(e) ==> e is PngEncodingError && icon is Some,
        r is Ok <==> crate::icon::opt_icon_encodable(
            match icon {
                Some(i) => Some(i@),
                None => None,
            },
        ),
        r matches Ok(cmds) ==> mac_cmd_views(cmds@) == mac_create_cmd_views(
            match icon {
                Some(i) => Some(i@),
                None => None,
            },
            match tooltip {
                Some(t) => Some(t@),
                None => None,
            },
            match title {
                Some(t) => Some(t@),
                None => None,
            },
            *menu,
            is_template,
        ),
{
    let mut cmds: Vec<MacCommand> = Vec::new();
    cmds.push(MacCommand::CreateStatusItem);
    match icon {
        Some(i) => {
            let (width, height) = i.get_size();
            match i.to_png() {
                Ok(png) => cmds.push(
                    MacCommand::SetButtonImage { png, width, height, is_template },
                ),
                Err(e) => {
                    return Err(e);
                },
            }
        },
        None => cmds.push(MacCommand::ClearButtonImage),
    }
    match menu {
        Some(m) => cmds.push(MacCommand::SetMenu { menu: Some(*m) }),
        None => (),
    }
    let tip: Option<String> = match tooltip {
        Some(t) => Some(t.clone()),
        None => None,
    };
    cmds.push(MacCommand::SetToolTip { tooltip: tip });
    match title {
        Some(t) => cmds.push(MacCommand::SetTitle { title: t.clone() }),
        None => (),
    }
    proof {
        assert(mac_cmd_views(cmds@) =~= mac_create_cmd_views(
            match icon {
                Some(i) => Some(i@),
                None => None,
            },
            match tooltip {
                Some(t) => Some(t@),
                None => None,
            },
            match title {
                Some(t) => Some(t@),
                None => None,
            },
            *menu,
            is_template,
        ));
    }
    Ok(cmds)
}

/// The state of a freshly constructed macOS driver: the attributes
/// mirrored and the native object graph created.
pub open spec fn mac_new_state(id: Seq<char>, a: AttrsView) -> MacTrayView {
    MacTrayView {
        id,
        icon: a.icon,
        tooltip: a.tooltip,
        title: a.title,
        menu: a.menu,
        icon_is_template: a.icon_is_template,
        menu_on_left_click: a.menu_on_left_click,
        created: true,
    }
}

/// The state after a visibility change: only the created flag moves; the
/// mirrored attributes survive, which is what lets showing again rebuild
/// the same native object graph.
pub open spec fn mac_set_visible_state(s: MacTrayView, visible: bool) -> MacTrayView {
    MacTrayView { created: visible, ..s }
}

/// Hiding a tray icon and then showing it again restores exactly the
/// freshly constructed state: the mirrored icon, tooltip, title and menu
/// survive the visibility toggle.
pub proof fn lemma_visibility_roundtrip(id: Seq<char>, a: AttrsView)
    ensures
        mac_set_visible_state(mac_set_visible_state(mac_new_state(id, a), false), true)
            == mac_new_state(id, a),
{
    assert(mac_set_visible_state(mac_set_visible_state(mac_new_state(id, a), false), true)
        =~= mac_new_state(id, a));
}

impl MacTrayIcon {
    /// Creates the driver state and the commands that build the native
    /// object graph. `main_thread` witnesses that the caller runs on the
    /// main thread; without it the call fails with `NotMainThread`. Fails
    /// with `PngEncodingError` when the configured icon cannot be encoded,
    /// building nothing.
    pub fn new(main_thread: bool, id: TrayIconId, attrs: TrayIconAttributes) -> (r: Result<
        (MacTrayIcon, Vec<MacCommand>),
        Error,
    >)
        ensures
            !main_thread ==> r == Err::<(MacTrayIcon, Vec<MacCommand>), _>(Error::NotMainThread),
            main_thread ==> {
                &&& (r matches Err(e) ==> e is PngEncodingError && attrs@.icon is Some)
                &&& (r is Ok <==> crate::icon::opt_icon_encodable(attrs@.icon))
                &&& r matches Ok((t, cmds)) ==> {
                    &&& t@ == mac_new_state(id@, attrs@)
                    &&& mac_cmd_views(cmds@) == mac_create_cmd_views(
                        attrs@.icon,
                        attrs@.tooltip,
                        attrs@.title,
                        attrs@.menu,
                        attrs@.icon_is_template,
                    )
                }
            },
    {
        if !main_thread {
            return Err(Error::NotMainThread);
        }
        let cmds = match create_commands(
            &attrs.icon,
            &attrs.tooltip,
            &attrs.title,
            &attrs.menu,
            attrs.icon_is_template,
        ) {
            Ok(cmds) => cmds,
            Err(e) => {
                return Err(e);
            },
        };
        let tray = MacTrayIcon {
            id,
            icon: attrs.icon,
            tooltip: attrs.tooltip,
            title: attrs.title,
            menu: attrs.menu,
            icon_is_template: attrs.icon_is_template,
            menu_on_left_click: attrs.menu_on_left_click,
            created: true,
        };
        Ok((tray, cmds))
    }

    /// Replaces (or clears) the icon image. While the native objects
    /// exist, the button image is replaced (without the template flag, as
    /// a plain image) and the overlay view's frame re-synced, since a new
    /// image can change the button's size. Fails only when the new icon
    /// cannot be encoded, leaving all state unchanged.
    pub fn set_icon(&mut self, icon: Option<Icon>) -> (r: Result<Vec<MacCommand>, Error>)
        ensures
            r matches Err(e) ==> e is PngEncodingError && final(self)@ == old(self)@,
            !old(self)@.created || crate::icon::opt_icon_encodable(
                match icon {
                    Some(i) => Some(i@),
                    None => None,
                },
            ) ==> r is Ok,
            r matches Ok(cmds) ==> {
                &&& final(self)@ == (MacTrayView {
                    icon: match icon {
                        Some(i) => Some(i@),
                        None => None,
                    },
                    ..old(self)@
                })
                &&& mac_cmd_views(cmds@) == (if old(self)@.created {
                    (match icon {
                        Some(i) => seq![
                            MacCommandView::SetButtonImage {
                                png: png_of(i@.rgba, i@.width, i@.height),
                                width: i@.width,
                                height: i@.height,
                                is_template: false,
                            },
                        ],
                        None => seq![MacCommandView::ClearButtonImage],
                    }) + seq![MacCommandView::UpdateDimensions]
                } else {
                    Seq::<MacCommandView>::empty()
                })
            },
    {
        let mut cmds: Vec<MacCommand> = Vec::new();
        if self.created {
            match &icon {
                Some(i) => {
                    let (width, height) = i.get_size();
                    match i.to_png() {
                        Ok(png) => cmds.push(
                            MacCommand::SetButtonImage { png, width, height, is_template: false },
                        ),
                        Err(e) => {
                            return Err(e);
                        },
                    }
                },
                None => cmds.push(MacCommand::ClearButtonImage),
            }
            cmds.push(MacCommand::UpdateDimensions);
        }
        self.icon = icon;
        proof {
            if old(self)@.created {
                assert(mac_cmd_views(cmds@) =~= (match self.icon {
                    Some(i) => seq![
                        MacCommandView::SetButtonImage {
                            png: png_of(i@.rgba, i@.width, i@.height),
                            width: i@.width,
                            height: i@.height,
                            is_template: false,
                        },
                    ],
                    None => seq![MacCommandView::ClearButtonImage],
                }) + seq![MacCommandView::UpdateDimensions]);
            } else {
                assert(mac_cmd_views(cmds@) =~= Seq::<MacCommandView>::empty());
            }
        }
        Ok(cmds)
    }

    /// Replaces (or clears) the attached menu.
    pub fn set_menu(&mut self, menu: Option<MenuHandle>) -> (cmds: Vec<MacCommand>)
        ensures
            final(self)@ == (MacTrayView { menu, ..old(self)@ }),
            mac_cmd_views(cmds@) == (if old(self)@.created {
                seq![MacCommandView::SetMenu { menu }]
            } else {
                Seq::<MacCommandView>::empty()
            }),
    {
        let mut cmds: Vec<MacCommand> = Vec::new();
        if self.created {
            cmds.push(MacCommand::SetMenu { menu });
        }
        self.menu = menu;
        cmds
    }

    /// Replaces (or clears) the tooltip, re-syncing the overlay view's
    /// frame since tooltip changes can alter the button's size.
    pub fn set_tooltip(&mut self, tooltip: Option<&str>) -> (r: Result<Vec<MacCommand>, Error>)
        ensures
            r matches Ok(cmds) && mac_cmd_views(cmds@) == (if old(self)@.created {
                seq![
                    MacCommandView::SetToolTip {
                        tooltip: match tooltip {
                            Some(t) => Some(t@),
                            None => None,
                        },
                    },
                    MacCommandView::UpdateDimensions,
                ]
            } else {
                Seq::<MacCommandView>::empty()
            }),
            final(self)@ == (MacTrayView {
                tooltip: match tooltip {
                    Some(t) => Some(t@),
                    None => None,
                },
                ..old(self)@
            }),
    {
        let owned: Option<String> = match tooltip {
            Some(t) => Some(t.to_owned()),
            None => None,
        };
        let mut cmds: Vec<MacCommand> = Vec::new();
        if self.created {
            let tip: Option<String> = match &owned {
                Some(t) => Some(t.clone()),
                None => None,
            };
            cmds.push(MacCommand::SetToolTip { tooltip: tip });
            cmds.push(MacCommand::UpdateDimensions);
        }
        self.tooltip = owned;
        Ok(cmds)
    }

    /// Sets the title. While the native objects exist, a new title is
    /// written to the button (clearing passes no native call, matching the
    /// native API) and the overlay view's frame re-synced.
    pub fn set_title(&mut self, title: Option<&str>) -> (cmds: Vec<MacCommand>)
        ensures
            final(self)@ == (MacTrayView {
                title: match title {
                    Some(t) => Some(t@),
                    None => None,
                },
                ..old(self)@
            }),
            mac_cmd_views(cmds@) == (if old(self)@.created {
                (match title {
                    Some(t) => seq![MacCommandView::SetTitle { title: t@ }],
                    None => Seq::<MacCommandView>::empty(),
                }) + seq![MacCommandView::UpdateDimensions]
            } else {
                Seq::<MacCommandView>::empty()
            }),
    {
        let owned: Option<String> = match title {
            Some(t) => Some(t.to_owned()),
            None => None,
        };
        let mut cmds: Vec<MacCommand> = Vec::new();
        if self.created {
            match &owned {
                Some(t) => cmds.push(MacCommand::SetTitle { title: t.clone() }),
                None => (),
            }
            cmds.push(MacCommand::UpdateDimensions);
        }
        self.title = owned;
        proof {
            if old(self)@.created {
                assert(mac_cmd_views(cmds@) =~= (match title {
                    Some(t) => seq![MacCommandView::SetTitle { title: t@ }],
                    None => Seq::<MacCommandView>::empty(),
                }) + seq![MacCommandView::UpdateDimensions]);
            }
        }
        cmds
    }

    /// Shows or hides the tray icon. Hiding destroys the native object
    /// graph and always succeeds; showing recreates it from the mirrored
    /// attributes, which are kept across the toggle, so the restored
    /// icon, menu, tooltip and title are the ones configured before.
    /// Fails only when recreating and the mirrored icon is zero-sized and
    /// so cannot be encoded, leaving all state unchanged.
    pub fn set_visible(&mut self, visible: bool) -> (r: Result<Vec<MacCommand>, Error>)
        ensures
            r matches Err(e) ==> e is PngEncodingError && final(self)@ == old(self)@,
            !visible ==> r is Ok,
            visible && old(self)@.created ==> r is Ok,
            crate::icon::opt_icon_encodable(old(self)@.icon) ==> r is Ok,
            r matches Ok(cmds) ==> {
                &&& final(self)@ == mac_set_visible_state(old(self)@, visible)
                &&& mac_cmd_views(cmds@) == (if visible && !old(self)@.created {
                    mac_create_cmd_views(
                        old(self)@.icon,
                        old(self)@.tooltip,
                        old(self)@.title,
                        old(self)@.menu,
                        old(self)@.icon_is_template,
                    )
                } else if !visible && old(self)@.created {
                    seq![MacCommandView::RemoveStatusItem]
                } else {
                    Seq::<MacCommandView>::empty()
                })
            },
    {
        if visible {
            if !self.created {
                let cmds = match create_commands(
                    &self.icon,
                    &self.tooltip,
                    &self.title,
                    &self.menu,
                    self.icon_is_template,
                ) {
                    Ok(cmds) => cmds,
                    Err(e) => {
                        return Err(e);
                    },
                };
                self.created = true;
                Ok(cmds)
            } else {
                Ok(Vec::new())
            }
        } else {
            let mut cmds: Vec<MacCommand> = Vec::new();
            if self.created {
                cmds.push(MacCommand::RemoveStatusItem);
            }
            self.created = false;
            Ok(cmds)
        }
    }

    /// Marks the current button image as a template (or not). The native
    /// call applies only while the objects exist and an image is set.
    pub fn set_icon_as_template(&mut self, is_template: bool) -> (cmds: Vec<MacCommand>)
        ensures
            final(self)@ == (MacTrayView { icon_is_template: is_template, ..old(self)@ }),
            mac_cmd_views(cmds@) == (if old(self)@.created && old(self)@.icon is Some {
                seq![MacCommandView::SetImageTemplate { is_template }]
            } else {
                Seq::<MacCommandView>::empty()
            }),
    {
        let mut cmds: Vec<MacCommand> = Vec::new();
        if self.created && self.icon.is_some() {
            cmds.push(MacCommand::SetImageTemplate { is_template });
        }
        self.icon_is_template = is_template;
        cmds
    }

    /// Enables or disables opening the menu on left click.
    pub fn set_show_menu_on_left_click(&mut self, enable: bool)
        ensures
            final(self)@ == (MacTrayView { menu_on_left_click: enable, ..old(self)@ }),
    {
        self.menu_on_left_click = enable;
    }

    /// Whether a click with the given button should open the attached
    /// menu, per this driver's click policy; see [`click_action`].
    pub fn click_action_for(&self, button: MouseButton) -> (r: ClickAction)
        ensures
            r == spec_click_action(self@.menu, self@.menu_on_left_click, button),
    {
        click_action(self.menu, self.menu_on_left_click, button)
    }

    /// Converts the host's frame query into the shared coordinate
    /// convention; `None` while the native objects do not exist or the
    /// query failed. The frame is given in physical pixels with the native
    /// bottom-left origin.
    pub fn rect(&self, frame: Option<(i64, i64, u32, u32)>, pixels_high: u32) -> (r: Option<Rect>)
        requires
            frame matches Some((x, y, w, h)) ==> -0x2000_0000_0000 <= y <= 0x2000_0000_0000,
        ensures
            r == (match frame {
                Some((x, y, w, h)) => {
                    if self@.created {
                        Some(spec_mac_tray_rect(x, y, w, h, pixels_high))
                    } else {
                        None::<Rect>
                    }
                },
                None => None::<Rect>,
            }),
    {
        if !self.created {
            return None;
        }
        match frame {
            Some((x, y, w, h)) => Some(mac_tray_rect(x, y, w, h, pixels_high)),
            None => None,
        }
    }

    /// The mirrored icon.
    pub fn icon(&self) -> (r: Option<Icon>)
        ensures
            (match r {
                Some(i) => Some(i@),
                None => None,
            }) == self@.icon,
    {
        match &self.icon {
            Some(i) => Some(i.clone()),
            None => None,
        }
    }

    /// The mirrored tooltip.
    pub fn tooltip(&self) -> (r: Option<String>)
        ensures
            (match r {
                Some(t) => Some(t@),
                None => None,
            }) == self@.tooltip,
    {
        match &self.tooltip {
            Some(t) => Some(t.clone()),
            None => None,
        }
    }

    /// The mirrored title.
    pub fn title(&self) -> (r: Option<String>)
        ensures
            (match r {
                Some(t) => Some(t@),
                None => None,
            }) == self@.title,
    {
        match &self.title {
            Some(t) => Some(t.clone()),
            None => None,
        }
    }

    /// The mirrored menu.
    pub fn menu(&self) -> (r: Option<MenuHandle>)
        ensures
            r == self@.menu,
    {
        self.menu
    }

    /// Whether the native object graph currently exists.
    pub fn visible(&self) -> (r: bool)
        ensures
            r == self@.created,
    {
        self.created
    }

    /// Releases the native objects, keeping the mirrored attributes.
    pub fn take_down(&mut self) -> (cmds: Vec<MacCommand>)
        ensures
            final(self)@ == (MacTrayView { created: false, ..old(self)@ }),
            mac_cmd_views(cmds@) == (if old(self)@.created {
                seq![MacCommandView::RemoveStatusItem]
            } else {
                Seq::<MacCommandView>::empty()
            }),
    {
        let mut cmds: Vec<MacCommand> = Vec::new();
        if self.created {
            cmds.push(MacCommand::RemoveStatusItem);
        }
        self.created = false;
        cmds
    }
}

/// What a click on the overlay view should do.
#[derive(Clone, Copy, Debug, PartialEq, Eq, Structural)]
pub enum ClickAction {
    /// Open the attached menu by performing the button click.
    OpenMenu,
    /// Only highlight the button.
    Highlight,
}

/// The click routing policy: the menu opens on a right click, or on a left
/// click when the menu-on-left-click attribute is set, and only when a
/// menu with at least one item is attached; any other click (including one
/// on an empty menu) merely highlights the button.
pub open spec fn spec_click_action(
    menu: Option<MenuHandle>,
    menu_on_left_click: bool,
    button: MouseButton,
) -> ClickAction {
    if (button is Right || (menu_on_left_click && button is Left)) && (menu matches Some(m)
        && m.items > 0) {
        ClickAction::OpenMenu
    } else {
        ClickAction::Highlight
    }
}

/// Decides what a click does; see [`spec_click_action`].
pub fn click_action(menu: Option<MenuHandle>, menu_on_left_click: bool, button: MouseButton) -> (r:
    ClickAction)
    ensures
        r == spec_click_action(menu, menu_on_left_click, button),
{
    let wants_menu = match button {
        MouseButton::Right => true,
        MouseButton::Left => menu_on_left_click,
        MouseButton::Middle => false,
    };
    let has_items = match menu {
        Some(m) => m.items > 0,
        None => false,
    };
    if wants_menu && has_items {
        ClickAction::OpenMenu
    } else {
        ClickAction::Highlight
    }
}

/// The mouse button that a native "other mouse" event with the given
/// button number stands for: only button number 2, the middle button, is
/// reported.
pub fn other_mouse_button(button_number: i64) -> (r: Option<MouseButton>)
    ensures
        button_number == 2 ==> r == Some(MouseButton::Middle),
        button_number != 2 ==> r is None,
{
    if button_number == 2 {
        Some(MouseButton::Middle)
    } else {
        None
    }
}

/// The icon's rectangle in the shared convention, from the native frame
/// (bottom-left origin, y upward): same x, y flipped so that the
/// rectangle's top edge is measured from the screen's top.
pub open spec fn spec_mac_tray_rect(x: i64, y: i64, w: u32, h: u32, pixels_high: u32) -> Rect {
    Rect {
        position: PhysicalPosition { x, y: (pixels_high - y - h) as i64 },
        size: PhysicalSize { width: w, height: h },
    }
}

/// Converts a native status-item frame into the shared coordinate
/// convention; see [`spec_mac_tray_rect`].
pub fn mac_tray_rect(x: i64, y: i64, w: u32, h: u32, pixels_high: u32) -> (r: Rect)
    requires
        -0x2000_0000_0000 <= y <= 0x2000_0000_0000,
    ensures
        r == spec_mac_tray_rect(x, y, w, h, pixels_high),
{
    Rect {
        position: PhysicalPosition { x, y: pixels_high as i64 - y - h as i64 },
        size: PhysicalSize { width: w, height: h },
    }
}

/// The kind of raw mouse event the overlay view intercepted.
#[derive(Clone, Copy, Debug, PartialEq, Eq, Structural)]
pub enum MouseEventType {
    Click,
    Enter,
    Leave,
    Move,
}

/// Normalizes one intercepted mouse event into the shared event model:
/// the cursor's y coordinate is flipped from the native bottom-left-origin
/// convention, and the icon rectangle is passed through as already
/// normalized. A click must carry its button and state.
pub fn make_mouse_event(
    id: &TrayIconId,
    kind: MouseEventType,
    click: Option<(MouseButton, MouseButtonState)>,
    cursor_x: i64,
    cursor_y: i64,
    pixels_high: u32,
    icon_rect: Rect,
) -> (r: TrayIconEvent)
    requires
        kind is Click ==> click is Some,
        -0x2000_0000_0000 <= cursor_y <= 0x2000_0000_0000,
    ensures
        ({
            let position = PhysicalPosition { x: cursor_x, y: (pixels_high - cursor_y) as i64 };
            let c = click->0;
            r@ == (match kind {
                MouseEventType::Click => TrayIconEventView::Click {
                    id: id@,
                    position,
                    rect: icon_rect,
                    button: c.0,
                    button_state: c.1,
                },
                MouseEventType::Enter => TrayIconEventView::Enter {
                    id: id@,
                    position,
                    rect: icon_rect,
                },
                MouseEventType::Leave => TrayIconEventView::Leave {
                    id: id@,
                    position,
                    rect: icon_rect,
                },
                MouseEventType::Move => TrayIconEventView::Move {
                    id: id@,
                    position,
                    rect: icon_rect,
                },
            })
        }),
{
    let position = PhysicalPosition { x: cursor_x, y: pixels_high as i64 - cursor_y };
    match kind {
        MouseEventType::Click => {
            let (button, button_state) = match click {
                Some(c) => c,
                None => (MouseButton::Left, MouseButtonState::Up),
            };
            TrayIconEvent::Click { id: id.clone(), position, rect: icon_rect, button, button_state }
        },
        MouseEventType::Enter => TrayIconEvent::Enter { id: id.clone(), position, rect: icon_rect },
        MouseEventType::Leave => TrayIconEvent::Leave { id: id.clone(), position, rect: icon_rect },
        MouseEventType::Move => TrayIconEvent::Move { id: id.clone(), position, rect: icon_rect },
    }
}

} // verus!
