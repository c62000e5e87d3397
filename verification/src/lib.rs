//! Cross-platform system-tray icon library: a validated RGBA icon type, a
//! unified tray event model, and one verified driver per desktop platform
//! (Windows, macOS, Linux/GTK) that keeps mirrored attributes in sync with
//! the native notification-area object and normalizes native input into the
//! shared event model.
//!
//! The drivers decide; they do not link the platform FFI. Every native
//! call is returned as a command value whose payload is fixed by the
//! driver's contract, for a host on the matching platform to perform
//! through its own bindings (the Win32 shell and message pump, AppKit, or
//! libappindicator); the host feeds native input and call outcomes back
//! in. The accompanying host crate holds the process-wide event sink and
//! the file-system half of the GTK staging commands.

pub mod attributes;
pub mod channel;
pub mod counter;
pub mod error;
pub mod event;
pub mod geometry;
pub mod gtk;
pub mod icon;
pub mod macos;
pub mod tray_icon_id;
pub mod windows;

use vstd::prelude::*;

verus! {

use crate::attributes::{AttrsView, MenuHandle, TrayIconAttributes};
use crate::counter::{dec_rep, format_u32, Counter};
use crate::error::Error;
use crate::geometry::Rect;
use crate::gtk::{GtkCommand, GtkTrayIcon, GtkTrayView};
use crate::icon::{Icon, IconView};
use crate::macos::{MacCommand, MacTrayIcon, MacTrayView};
use crate::tray_icon_id::TrayIconId;
use crate::windows::{WinCommand, WinTrayIcon, WinTrayView};

/// What the host must supply to construct the driver for its platform: a
/// main-thread witness on macOS, and the staging base directory (the
/// runtime directory, falling back to the OS temp directory) on Linux.
#[derive(Debug)]
pub enum PlatformContext {
    Windows,
    MacOs { main_thread: bool },
    Gtk { default_base: String },
}

/// The per-platform driver behind the unified facade.
#[derive(Debug)]
pub enum PlatformTrayIcon {
    Windows(WinTrayIcon),
    MacOs(MacTrayIcon),
    Gtk(GtkTrayIcon),
}

/// The mathematical content of the per-platform driver state.
#[verifier::ext_equal]
pub ghost enum PlatformTrayView {
    Windows(WinTrayView),
    MacOs(MacTrayView),
    Gtk(GtkTrayView),
}

impl View for PlatformTrayIcon {
    type V = PlatformTrayView;

    open spec fn view(&self) -> PlatformTrayView {
        match self {
            PlatformTrayIcon::Windows(t) => PlatformTrayView::Windows(t@),
            PlatformTrayIcon::MacOs(t) => PlatformTrayView::MacOs(t@),
            PlatformTrayIcon::Gtk(t) => PlatformTrayView::Gtk(t@),
        }
    }
}

/// The platform inputs to an icon-rectangle query: the shell's edge
/// coordinates on Windows, or the status item's native frame and the main
/// display's pixel height on macOS.
#[derive(Clone, Copy, Debug)]
pub enum RectQuery {
    Windows { bounds: Option<(i32, i32, i32, i32)> },
    MacOs { frame: Option<(i64, i64, u32, u32)>, pixels_high: u32 },
    Gtk,
}

/// The native calls produced by one facade operation, for the host to
/// perform on its platform.
#[derive(Debug)]
pub enum NativeCommands {
    Windows(Vec<WinCommand>),
    MacOs(Vec<MacCommand>),
    Gtk(Vec<GtkCommand>),
}

/// The observable attributes of a driver state: its mirrored icon,
/// tooltip, title and menu. Attributes a platform does not support (the
/// title on Windows, the tooltip on Linux) read as absent.
pub open spec fn platform_attrs(v: PlatformTrayView) -> (
    Option<IconView>,
    Option<Seq<char>>,
    Option<Seq<char>>,
    Option<MenuHandle>,
) {
    match v {
        PlatformTrayView::Windows(w) => (w.icon, w.tooltip, None, w.menu),
        PlatformTrayView::MacOs(m) => (m.icon, m.tooltip, m.title, m.menu),
        PlatformTrayView::Gtk(g) => (g.icon, None, g.title, g.menu),
    }
}

/// Whether the driver's native registration is currently visible.
pub open spec fn platform_visible(v: PlatformTrayView) -> bool {
    match v {
        PlatformTrayView::Windows(w) => w.registered,
        PlatformTrayView::MacOs(m) => m.created,
        PlatformTrayView::Gtk(g) => g.visible,
    }
}

/// The mathematical content of a facade tray icon.
#[verifier::ext_equal]
pub ghost struct TrayIconView {
    pub id: Seq<char>,
    pub inner: PlatformTrayView,
}

/// The unified tray icon: the stable id plus the platform driver. Every
/// mutation keeps the mirrored attributes and the native object in sync,
/// by updating the mirror and returning the native calls for the host to
/// perform.
#[derive(Debug)]
pub struct TrayIcon {
    id: TrayIconId,
    inner: PlatformTrayIcon,
}

impl View for TrayIcon {
    type V = TrayIconView;

    closed spec fn view(&self) -> TrayIconView {
        TrayIconView { id: self.id@, inner: self.inner@ }
    }
}

impl TrayIcon {
    /// Builds a new tray icon with the given id. Draws one internal id
    /// from the counter on Windows and Linux (their shells key the native
    /// registration by a number). Fails with `NotMainThread` off the main
    /// thread on macOS, and with `PngEncodingError` when the configured
    /// icon cannot be encoded for a platform that needs PNG bytes.
    pub fn with_id(
        id: TrayIconId,
        attrs: TrayIconAttributes,
        ctx: PlatformContext,
        counter: &mut Counter,
    ) -> (r: Result<(TrayIcon, NativeCommands), Error>)
        requires
            old(counter).peek() < u32::MAX,
        ensures
            ctx is Windows ==> {
                &&& final(counter).peek() == old(counter).peek() + 1
                &&& r matches Ok((t, cmds))
                &&& t@ == (TrayIconView {
                    id: id@,
                    inner: PlatformTrayView::Windows(
                        crate::windows::win_new_state(id@, attrs@, old(counter).peek()),
                    ),
                })
                &&& cmds matches NativeCommands::Windows(v) && crate::windows::win_cmd_views(v@)
                    == crate::windows::win_new_cmd_views(attrs@, old(counter).peek())
            },
            ctx matches PlatformContext::MacOs { main_thread } ==> {
                &&& final(counter).peek() == old(counter).peek()
                &&& (!main_thread ==> (r matches Err(e) && e is NotMainThread))
                &&& (main_thread ==> (r matches Err(e) ==> e is PngEncodingError && attrs@.icon
                    is Some))
                &&& (main_thread ==> (r is Ok <==> crate::icon::opt_icon_encodable(attrs@.icon)))
                &&& r matches Ok((t, cmds)) ==> {
                    &&& main_thread
                    &&& t@ == (TrayIconView {
                        id: id@,
                        inner: PlatformTrayView::MacOs(crate::macos::mac_new_state(id@, attrs@)),
                    })
                    &&& cmds matches NativeCommands::MacOs(v) && crate::macos::mac_cmd_views(v@)
                        == crate::macos::mac_create_cmd_views(
                        attrs@.icon,
                        attrs@.tooltip,
                        attrs@.title,
                        attrs@.menu,
                        attrs@.icon_is_template,
                    )
                }
            },
            ctx matches PlatformContext::Gtk { default_base } ==> {
                &&& final(counter).peek() == old(counter).peek() + 1
                &&& (r matches Err(e) ==> e is PngEncodingError && attrs@.icon is Some)
                &&& (r is Ok <==> crate::icon::opt_icon_encodable(attrs@.icon))
                &&& r matches Ok((t, cmds)) ==> {
                    let parent = crate::gtk::parent_path_spec(attrs@.temp_dir_path, default_base@);
                    let path = crate::gtk::icon_file_path_spec(
                        parent,
                        old(counter).peek() as nat,
                        0,
                    );
                    &&& t@ == (TrayIconView {
                        id: id@,
                        inner: PlatformTrayView::Gtk(
                            crate::gtk::gtk_new_state(
                                old(counter).peek(),
                                attrs@,
                                default_base@,
                            ),
                        ),
                    })
                    &&& cmds matches NativeCommands::Gtk(v) && crate::gtk::cmd_views(v@)
                        == crate::gtk::gtk_new_cmd_views(attrs@, parent, path)
                }
            },
    {
        match ctx {
            PlatformContext::Windows => {
                let internal_id = counter.next();
                let (tray, cmds) = WinTrayIcon::new(id.clone(), attrs, internal_id);
                Ok(
                    (
                        TrayIcon { id, inner: PlatformTrayIcon::Windows(tray) },
                        NativeCommands::Windows(cmds),
                    ),
                )
            },
            PlatformContext::MacOs { main_thread } => {
                match MacTrayIcon::new(main_thread, id.clone(), attrs) {
                    Ok((tray, cmds)) => Ok(
                        (
                            TrayIcon { id, inner: PlatformTrayIcon::MacOs(tray) },
                            NativeCommands::MacOs(cmds),
                        ),
                    ),
                    Err(e) => Err(e),
                }
            },
            PlatformContext::Gtk { default_base } => {
                let internal_id = counter.next();
                match GtkTrayIcon::new(internal_id, attrs, default_base.as_str()) {
                    Ok((tray, cmds)) => Ok(
                        (
                            TrayIcon { id, inner: PlatformTrayIcon::Gtk(tray) },
                            NativeCommands::Gtk(cmds),
                        ),
                    ),
                    Err(e) => Err(e),
                }
            },
        }
    }

    /// Builds a new tray icon with an auto-assigned decimal id drawn from
    /// the counter; a second counter value becomes the internal shell id
    /// on Windows and Linux. See [`TrayIcon::with_id`] for the platform
    /// contracts.
    pub fn new(attrs: TrayIconAttributes, ctx: PlatformContext, counter: &mut Counter) -> (r:
        Result<(TrayIcon, NativeCommands), Error>)
        requires
            old(counter).peek() < u32::MAX - 1,
        ensures
            ({
                let id_view = dec_rep(old(counter).peek() as nat);
                let internal = (old(counter).peek() + 1) as u32;
                &&& (r matches Ok((t, cmds)) ==> t@.id == id_view)
                &&& (ctx is Windows ==> {
                    &&& final(counter).peek() == old(counter).peek() + 2
                    &&& r matches Ok((t, cmds))
                    &&& t@ == (TrayIconView {
                        id: id_view,
                        inner: PlatformTrayView::Windows(
                            crate::windows::win_new_state(id_view, attrs@, internal),
                        ),
                    })
                    &&& cmds matches NativeCommands::Windows(v)
                        && crate::windows::win_cmd_views(v@) == crate::windows::win_new_cmd_views(
                        attrs@,
                        internal,
                    )
                })
                &&& (ctx matches PlatformContext::MacOs { main_thread } ==> {
                    &&& final(counter).peek() == old(counter).peek() + 1
                    &&& (!main_thread ==> (r matches Err(e) && e is NotMainThread))
                    &&& (main_thread ==> (r matches Err(e) ==> e is PngEncodingError
                        && attrs@.icon is Some))
                    &&& (main_thread ==> (r is Ok <==> crate::icon::opt_icon_encodable(
                        attrs@.icon,
                    )))
                    &&& (r matches Ok((t, cmds)) ==> main_thread && t@ == (TrayIconView {
                        id: id_view,
                        inner: PlatformTrayView::MacOs(
                            crate::macos::mac_new_state(id_view, attrs@),
                        ),
                    }))
                })
                &&& (ctx matches PlatformContext::Gtk { default_base } ==> {
                    &&& final(counter).peek() == old(counter).peek() + 2
                    &&& (r matches Err(e) ==> e is PngEncodingError && attrs@.icon is Some)
                    &&& (r is Ok <==> crate::icon::opt_icon_encodable(attrs@.icon))
                    &&& (r matches Ok((t, cmds)) ==> t@ == (TrayIconView {
                        id: id_view,
                        inner: PlatformTrayView::Gtk(
                            crate::gtk::gtk_new_state(internal, attrs@, default_base@),
                        ),
                    }))
                })
            }),
    {
        let id = TrayIconId(format_u32(counter.next()));
        Self::with_id(id, attrs, ctx, counter)
    }

    /// Returns the id associated with this tray icon.
    pub fn id(&self) -> (r: &TrayIconId)
        ensures
            r@ == self@.id,
    {
        &self.id
    }

    /// Shows or hides this tray icon. The mirrored attributes survive the
    /// toggle on every platform: hiding and showing again restores the
    /// same icon, menu, tooltip and title. Hiding always succeeds, and so
    /// does showing except on macOS when recreating the native objects
    /// requires encoding a zero-sized icon, in which case nothing
    /// changes.
    pub fn set_visible(&mut self, visible: bool) -> (r: Result<NativeCommands, Error>)
        ensures
            r matches Err(e) ==> e is PngEncodingError && final(self)@ == old(self)@,
            !visible ==> r is Ok,
            old(self)@.inner is Windows ==> r is Ok,
            old(self)@.inner is Gtk ==> r is Ok,
            old(self)@.inner matches PlatformTrayView::MacOs(m) && (m.created
                || crate::icon::opt_icon_encodable(m.icon)) ==> r is Ok,
            r matches Ok(cmds) ==> {
                &&& final(self)@.id == old(self)@.id
                &&& platform_attrs(final(self)@.inner) == platform_attrs(old(self)@.inner)
                &&& platform_visible(final(self)@.inner) == visible
                &&& match old(self)@.inner {
                    PlatformTrayView::Windows(w) => final(self)@.inner
                        == PlatformTrayView::Windows(crate::windows::win_set_visible_state(w, visible))
                        && (cmds matches NativeCommands::Windows(v)
                        && crate::windows::win_cmd_views(v@) == (if visible {
                        crate::windows::register_cmd_views(w.icon, w.tooltip, w.internal_id)
                    } else {
                        seq![
                            crate::windows::WinCommandView::DeleteIcon {
                                internal_id: w.internal_id,
                            },
                        ]
                    })),
                    PlatformTrayView::MacOs(m) => final(self)@.inner == PlatformTrayView::MacOs(
                        crate::macos::mac_set_visible_state(m, visible),
                    ) && (cmds matches NativeCommands::MacOs(v) && crate::macos::mac_cmd_views(v@)
                        == (if visible && !m.created {
                        crate::macos::mac_create_cmd_views(
                            m.icon,
                            m.tooltip,
                            m.title,
                            m.menu,
                            m.icon_is_template,
                        )
                    } else if !visible && m.created {
                        seq![crate::macos::MacCommandView::RemoveStatusItem]
                    } else {
                        Seq::<crate::macos::MacCommandView>::empty()
                    })),
                    PlatformTrayView::Gtk(g) => final(self)@.inner == PlatformTrayView::Gtk(
                        crate::gtk::gtk_set_visible_state(g, visible),
                    ) && (cmds matches NativeCommands::Gtk(v) && crate::gtk::cmd_views(v@)
                        == seq![crate::gtk::GtkCommandView::SetStatus { active: visible }]),
                }
            },
    {
        match &mut self.inner {
            PlatformTrayIcon::Windows(t) => Ok(NativeCommands::Windows(t.set_visible(visible))),
            PlatformTrayIcon::MacOs(t) => match t.set_visible(visible) {
                Ok(cmds) => Ok(NativeCommands::MacOs(cmds)),
                Err(e) => Err(e),
            },
            PlatformTrayIcon::Gtk(t) => match t.set_visible(visible) {
                Ok(cmds) => Ok(NativeCommands::Gtk(cmds)),
                Err(e) => Err(e),
            },
        }
    }

    /// Set a new tray icon image. If `None` is provided, the image is
    /// removed. On macOS and Linux the mirror commits here, since those
    /// native calls report no failure; on Windows the mirror commits only
    /// in [`TrayIcon::complete_set_icon`], after the host reports the
    /// shell's answer. Fails only when the new icon must be encoded as
    /// PNG (on macOS and Linux) and the encoding fails — never for a
    /// well-formed icon with nonzero dimensions — leaving all state
    /// unchanged.
    pub fn set_icon(&mut self, icon: Option<Icon>) -> (r: Result<NativeCommands, Error>)
        requires
            old(self)@.inner matches PlatformTrayView::Gtk(g) ==> g.revision < u32::MAX,
        ensures
            r matches Err(e) ==> e is PngEncodingError && final(self)@ == old(self)@,
            old(self)@.inner is Windows ==> r is Ok,
            crate::icon::opt_icon_encodable(
                match icon {
                    Some(i) => Some(i@),
                    None => None,
                },
            ) ==> r is Ok,
            r matches Ok(cmds) ==> {
                let iv = match icon {
                    Some(i) => Some(i@),
                    None => None::<IconView>,
                };
                &&& final(self)@.id == old(self)@.id
                &&& match old(self)@.inner {
                    PlatformTrayView::Windows(w) => {
                        &&& final(self)@.inner == PlatformTrayView::Windows(w)
                        &&& (cmds matches NativeCommands::Windows(v)
                            && crate::windows::win_cmd_views(v@) == (match icon {
                            Some(i) => seq![
                                crate::windows::WinCommandView::CreateNativeBitmap {
                                    width: i@.width,
                                    height: i@.height,
                                    bgra: crate::icon::bgra_of(i@.rgba),
                                    and_mask: crate::icon::and_mask_of(i@.rgba),
                                },
                            ],
                            None => Seq::<crate::windows::WinCommandView>::empty(),
                        }) + seq![
                            crate::windows::WinCommandView::ModifyIcon {
                                internal_id: w.internal_id,
                                has_icon: icon is Some,
                            },
                        ])
                    },
                    PlatformTrayView::MacOs(m) => {
                        &&& final(self)@.inner == PlatformTrayView::MacOs(
                            MacTrayView { icon: iv, ..m },
                        )
                        &&& (cmds matches NativeCommands::MacOs(v)
                            && crate::macos::mac_cmd_views(v@) == (if m.created {
                            (match icon {
                                Some(i) => seq![
                                    crate::macos::MacCommandView::SetButtonImage {
                                        png: crate::icon::png_of(i@.rgba, i@.width, i@.height),
                                        width: i@.width,
                                        height: i@.height,
                                        is_template: false,
                                    },
                                ],
                                None => seq![crate::macos::MacCommandView::ClearButtonImage],
                            }) + seq![crate::macos::MacCommandView::UpdateDimensions]
                        } else {
                            Seq::<crate::macos::MacCommandView>::empty()
                        }))
                    },
                    PlatformTrayView::Gtk(g) => {
                        let parent = crate::gtk::parent_path_spec(g.temp_dir_path, g.default_base);
                        let path = crate::gtk::icon_file_path_spec(
                            parent,
                            g.internal_id as nat,
                            (g.revision + 1) as nat,
                        );
                        &&& final(self)@.inner == PlatformTrayView::Gtk(
                            GtkTrayView {
                                path,
                                staged: g.staged.push(path),
                                revision: (g.revision + 1) as u32,
                                icon: iv,
                                ..g
                            },
                        )
                        &&& (cmds matches NativeCommands::Gtk(v) && crate::gtk::cmd_views(v@)
                            == seq![crate::gtk::GtkCommandView::CreateDirAll { path: parent }] + (
                        match icon {
                            Some(i) => seq![
                                crate::gtk::GtkCommandView::WriteIconPng {
                                    path,
                                    bytes: crate::icon::png_of(i@.rgba, i@.width, i@.height),
                                },
                            ],
                            None => Seq::<crate::gtk::GtkCommandView>::empty(),
                        }) + seq![
                            crate::gtk::GtkCommandView::SetIconPath {
                                theme_path: parent,
                                icon_path: path,
                            },
                        ])
                    },
                }
            },
    {
        match &mut self.inner {
            PlatformTrayIcon::Windows(t) => Ok(NativeCommands::Windows(t.set_icon(&icon))),
            PlatformTrayIcon::MacOs(t) => match t.set_icon(icon) {
                Ok(cmds) => Ok(NativeCommands::MacOs(cmds)),
                Err(e) => Err(e),
            },
            PlatformTrayIcon::Gtk(t) => match t.set_icon(icon) {
                Ok(cmds) => Ok(NativeCommands::Gtk(cmds)),
                Err(e) => Err(e),
            },
        }
    }

    /// Set a new tray menu. On Linux, once a menu is set it cannot be
    /// removed, so `None` has no effect there while a menu is attached.
    pub fn set_menu(&mut self, menu: Option<MenuHandle>) -> (cmds: NativeCommands)
        ensures
            final(self)@.id == old(self)@.id,
            match old(self)@.inner {
                PlatformTrayView::Windows(w) => {
                    &&& final(self)@.inner == PlatformTrayView::Windows(WinTrayView { menu, ..w })
                    &&& (cmds matches NativeCommands::Windows(v)
                        && crate::windows::win_cmd_views(v@) == (match w.menu {
                        Some(m) => seq![crate::windows::WinCommandView::DetachMenu { menu: m }],
                        None => Seq::<crate::windows::WinCommandView>::empty(),
                    }) + (match menu {
                        Some(m) => seq![crate::windows::WinCommandView::AttachMenu { menu: m }],
                        None => Seq::<crate::windows::WinCommandView>::empty(),
                    }))
                },
                PlatformTrayView::MacOs(m) => {
                    &&& final(self)@.inner == PlatformTrayView::MacOs(MacTrayView { menu, ..m })
                    &&& (cmds matches NativeCommands::MacOs(v) && crate::macos::mac_cmd_views(v@)
                        == (if m.created {
                        seq![crate::macos::MacCommandView::SetMenu { menu }]
                    } else {
                        Seq::<crate::macos::MacCommandView>::empty()
                    }))
                },
                PlatformTrayView::Gtk(g) => {
                    &&& (menu matches Some(mh) ==> final(self)@.inner == PlatformTrayView::Gtk(
                        GtkTrayView { menu: Some(mh), ..g },
                    ) && (cmds matches NativeCommands::Gtk(v) && crate::gtk::cmd_views(v@)
                        == seq![crate::gtk::GtkCommandView::SetMenu { menu: mh }]))
                    &&& (menu is None ==> final(self)@.inner == PlatformTrayView::Gtk(g) && (
                    cmds matches NativeCommands::Gtk(v) && v@.len() == 0))
                },
            },
    {
        match &mut self.inner {
            PlatformTrayIcon::Windows(t) => NativeCommands::Windows(t.set_menu(menu)),
            PlatformTrayIcon::MacOs(t) => NativeCommands::MacOs(t.set_menu(menu)),
            PlatformTrayIcon::Gtk(t) => NativeCommands::Gtk(t.set_menu(menu)),
        }
    }

    /// Sets the tooltip for this tray icon. Unsupported on Linux, where
    /// the call succeeds and changes nothing. On macOS the mirror commits
    /// here; on Windows it commits only in
    /// [`TrayIcon::complete_set_tooltip`], after the host reports the
    /// shell's answer.
    pub fn set_tooltip(&mut self, tooltip: Option<&str>) -> (r: Result<NativeCommands, Error>)
        ensures
            r is Ok,
            final(self)@.id == old(self)@.id,
            ({
                let tv = match tooltip {
                    Some(t) => Some(t@),
                    None => None::<Seq<char>>,
                };
                match old(self)@.inner {
                    PlatformTrayView::Windows(w) => {
                        &&& final(self)@.inner == PlatformTrayView::Windows(w)
                        &&& (r matches Ok(cmds) && cmds matches NativeCommands::Windows(v)
                            && crate::windows::win_cmd_views(v@) == seq![
                            crate::windows::WinCommandView::ModifyTooltip {
                                internal_id: w.internal_id,
                                sz_tip: crate::windows::sz_tip_spec(tv),
                            },
                        ])
                    },
                    PlatformTrayView::MacOs(m) => {
                        &&& final(self)@.inner == PlatformTrayView::MacOs(
                            MacTrayView { tooltip: tv, ..m },
                        )
                        &&& (r matches Ok(cmds) && cmds matches NativeCommands::MacOs(v)
                            && crate::macos::mac_cmd_views(v@) == (if m.created {
                            seq![
                                crate::macos::MacCommandView::SetToolTip { tooltip: tv },
                                crate::macos::MacCommandView::UpdateDimensions,
                            ]
                        } else {
                            Seq::<crate::macos::MacCommandView>::empty()
                        }))
                    },
                    PlatformTrayView::Gtk(g) => {
                        &&& final(self)@.inner == PlatformTrayView::Gtk(g)
                        &&& (r matches Ok(cmds) && cmds matches NativeCommands::Gtk(v) && v@.len()
                            == 0)
                    },
                }
            }),
    {
        match &mut self.inner {
            PlatformTrayIcon::Windows(t) => Ok(NativeCommands::Windows(t.set_tooltip(tooltip))),
            PlatformTrayIcon::MacOs(t) => match t.set_tooltip(tooltip) {
                Ok(cmds) => Ok(NativeCommands::MacOs(cmds)),
                Err(e) => Err(e),
            },
            PlatformTrayIcon::Gtk(t) => match t.set_tooltip(tooltip) {
                Ok(cmds) => Ok(NativeCommands::Gtk(cmds)),
                Err(e) => Err(e),
            },
        }
    }

    /// Reports the shell's answer to a Windows icon change: on success
    /// the mirror takes the new icon, on failure the mirror is unchanged
    /// and the native error comes back as `OsError`. On the other
    /// platforms the mirror committed in [`TrayIcon::set_icon`] already,
    /// so this call changes nothing and succeeds.
    pub fn complete_set_icon(&mut self, icon: Option<Icon>, native: Result<(), String>) -> (r:
        Result<(), Error>)
        ensures
            final(self)@.id == old(self)@.id,
            match old(self)@.inner {
                PlatformTrayView::Windows(w) => {
                    &&& (native is Ok ==> final(self)@.inner == PlatformTrayView::Windows(
                        WinTrayView {
                            icon: match icon {
                                Some(i) => Some(i@),
                                None => None,
                            },
                            ..w
                        },
                    ) && r is Ok)
                    &&& (native matches Err(m) ==> final(self)@.inner == old(self)@.inner && (
                    r matches Err(e) && e matches Error::OsError(msg) && msg@ == m@))
                },
                _ => final(self)@ == old(self)@ && r is Ok,
            },
    {
        match &mut self.inner {
            PlatformTrayIcon::Windows(t) => t.complete_set_icon(icon, native),
            _ => Ok(()),
        }
    }

    /// Reports the shell's answer to a Windows tooltip change: on success
    /// the mirror takes the new tooltip, on failure the mirror is
    /// unchanged and the native error comes back as `OsError`. On the
    /// other platforms the mirror committed in [`TrayIcon::set_tooltip`]
    /// already, so this call changes nothing and succeeds.
    pub fn complete_set_tooltip(&mut self, tooltip: Option<&str>, native: Result<(), String>) -> (r:
        Result<(), Error>)
        ensures
            final(self)@.id == old(self)@.id,
            match old(self)@.inner {
                PlatformTrayView::Windows(w) => {
                    &&& (native is Ok ==> final(self)@.inner == PlatformTrayView::Windows(
                        WinTrayView {
                            tooltip: match tooltip {
                                Some(t) => Some(t@),
                                None => None,
                            },
                            ..w
                        },
                    ) && r is Ok)
                    &&& (native matches Err(m) ==> final(self)@.inner == old(self)@.inner && (
                    r matches Err(e) && e matches Error::OsError(msg) && msg@ == m@))
                },
                _ => final(self)@ == old(self)@ && r is Ok,
            },
    {
        match &mut self.inner {
            PlatformTrayIcon::Windows(t) => t.complete_set_tooltip(tooltip, native),
            _ => Ok(()),
        }
    }

    /// Sets the tray icon title. Unsupported on Windows, where the call
    /// changes nothing.
    pub fn set_title(&mut self, title: Option<&str>) -> (cmds: NativeCommands)
        ensures
            final(self)@.id == old(self)@.id,
            ({
                let tv = match title {
                    Some(t) => Some(t@),
                    None => None::<Seq<char>>,
                };
                match old(self)@.inner {
                    PlatformTrayView::Windows(w) => {
                        &&& final(self)@.inner == PlatformTrayView::Windows(w)
                        &&& (cmds matches NativeCommands::Windows(v) && v@.len() == 0)
                    },
                    PlatformTrayView::MacOs(m) => {
                        &&& final(self)@.inner == PlatformTrayView::MacOs(
                            MacTrayView { title: tv, ..m },
                        )
                        &&& (cmds matches NativeCommands::MacOs(v) && crate::macos::mac_cmd_views(
                            v@,
                        ) == (if m.created {
                            (match title {
                                Some(t) => seq![crate::macos::MacCommandView::SetTitle { title: t@ }],
                                None => Seq::<crate::macos::MacCommandView>::empty(),
                            }) + seq![crate::macos::MacCommandView::UpdateDimensions]
                        } else {
                            Seq::<crate::macos::MacCommandView>::empty()
                        }))
                    },
                    PlatformTrayView::Gtk(g) => {
                        &&& final(self)@.inner == PlatformTrayView::Gtk(
                            GtkTrayView { title: tv, ..g },
                        )
                        &&& (cmds matches NativeCommands::Gtk(v) && crate::gtk::cmd_views(v@)
                            == seq![
                            crate::gtk::GtkCommandView::SetLabel {
                                text: match title {
                                    Some(t) => t@,
                                    None => ""@,
                                },
                            },
                        ])
                    },
                }
            }),
    {
        match &mut self.inner {
            PlatformTrayIcon::Windows(t) => NativeCommands::Windows(t.set_title(title)),
            PlatformTrayIcon::MacOs(t) => NativeCommands::MacOs(t.set_title(title)),
            PlatformTrayIcon::Gtk(t) => NativeCommands::Gtk(t.set_title(title)),
        }
    }

    /// Sets the staging directory for icon files. Linux only; elsewhere
    /// the call changes nothing.
    pub fn set_temp_dir_path(&mut self, path: Option<String>)
        ensures
            final(self)@.id == old(self)@.id,
            platform_attrs(final(self)@.inner) == platform_attrs(old(self)@.inner),
            platform_visible(final(self)@.inner) == platform_visible(old(self)@.inner),
            old(self)@.inner matches PlatformTrayView::Gtk(g) ==> final(self)@.inner
                == PlatformTrayView::Gtk(
                crate::gtk::GtkTrayView {
                    temp_dir_path: match path {
                        Some(p) => Some(p@),
                        None => None,
                    },
                    ..g
                },
            ),
    {
        match &mut self.inner {
            PlatformTrayIcon::Gtk(t) => t.set_temp_dir_path(path),
            _ => (),
        }
    }

    /// Marks the current icon as a template image. macOS only; elsewhere
    /// the call changes nothing.
    pub fn set_icon_as_template(&mut self, is_template: bool) -> (cmds: NativeCommands)
        ensures
            final(self)@.id == old(self)@.id,
            platform_attrs(final(self)@.inner) == platform_attrs(old(self)@.inner),
            platform_visible(final(self)@.inner) == platform_visible(old(self)@.inner),
            old(self)@.inner matches PlatformTrayView::MacOs(m) ==> final(self)@.inner
                == PlatformTrayView::MacOs(
                crate::macos::MacTrayView { icon_is_template: is_template, ..m },
            ),
    {
        match &mut self.inner {
            PlatformTrayIcon::MacOs(t) => NativeCommands::MacOs(t.set_icon_as_template(is_template)),
            PlatformTrayIcon::Windows(_) => NativeCommands::Windows(Vec::new()),
            PlatformTrayIcon::Gtk(_) => NativeCommands::Gtk(Vec::new()),
        }
    }

    /// Enables or disables showing the tray menu on left click. macOS
    /// only; elsewhere the call changes nothing.
    pub fn set_show_menu_on_left_click(&mut self, enable: bool)
        ensures
            final(self)@.id == old(self)@.id,
            platform_attrs(final(self)@.inner) == platform_attrs(old(self)@.inner),
            platform_visible(final(self)@.inner) == platform_visible(old(self)@.inner),
            old(self)@.inner matches PlatformTrayView::MacOs(m) ==> final(self)@.inner
                == PlatformTrayView::MacOs(
                crate::macos::MacTrayView { menu_on_left_click: enable, ..m },
            ),
    {
        match &mut self.inner {
            PlatformTrayIcon::MacOs(t) => t.set_show_menu_on_left_click(enable),
            _ => (),
        }
    }

    /// Releases the native resources, keeping the mirrored attributes:
    /// the shell entry, hidden window, status item or indicator goes away,
    /// and on Linux every staged icon file is removed.
    pub fn take_down(&mut self) -> (cmds: NativeCommands)
        ensures
            final(self)@.id == old(self)@.id,
            platform_visible(final(self)@.inner) == false,
            match old(self)@.inner {
                PlatformTrayView::Windows(w) => {
                    &&& final(self)@.inner == PlatformTrayView::Windows(
                        WinTrayView { registered: false, ..w },
                    )
                    &&& (cmds matches NativeCommands::Windows(v)
                        && crate::windows::win_cmd_views(v@) == seq![
                        crate::windows::WinCommandView::DeleteIcon { internal_id: w.internal_id },
                    ] + (match w.menu {
                        Some(m) => seq![crate::windows::WinCommandView::DetachMenu { menu: m }],
                        None => Seq::<crate::windows::WinCommandView>::empty(),
                    }) + seq![crate::windows::WinCommandView::DestroyWindow])
                },
                PlatformTrayView::MacOs(m) => {
                    &&& final(self)@.inner == PlatformTrayView::MacOs(
                        MacTrayView { created: false, ..m },
                    )
                    &&& (cmds matches NativeCommands::MacOs(v) && crate::macos::mac_cmd_views(v@)
                        == (if m.created {
                        seq![crate::macos::MacCommandView::RemoveStatusItem]
                    } else {
                        Seq::<crate::macos::MacCommandView>::empty()
                    }))
                },
                PlatformTrayView::Gtk(g) => {
                    &&& final(self)@.inner == PlatformTrayView::Gtk(
                        GtkTrayView { staged: seq![], visible: false, ..g },
                    )
                    &&& (cmds matches NativeCommands::Gtk(v) && {
                        &&& v@.len() == g.staged.len() + 1
                        &&& v@[0]@ == (crate::gtk::GtkCommandView::SetStatus { active: false })
                        &&& forall|i: int|
                            0 <= i < g.staged.len() ==> (#[trigger] v@[i + 1]@)
                                == (crate::gtk::GtkCommandView::RemoveFile { path: g.staged[i] })
                    })
                },
            },
    {
        match &mut self.inner {
            PlatformTrayIcon::Windows(t) => NativeCommands::Windows(t.take_down()),
            PlatformTrayIcon::MacOs(t) => NativeCommands::MacOs(t.take_down()),
            PlatformTrayIcon::Gtk(t) => NativeCommands::Gtk(t.take_down()),
        }
    }

    /// Get the tray icon's rectangle in the shared coordinate convention,
    /// from the platform's native query results. Unavailable on Linux,
    /// and wherever the native query failed.
    pub fn rect(&self, query: RectQuery) -> (r: Option<Rect>)
        requires
            query matches RectQuery::MacOs { frame: Some(f), .. } ==> -0x2000_0000_0000 <= f.1
                <= 0x2000_0000_0000,
        ensures
            r == (match (self@.inner, query) {
                (PlatformTrayView::Windows(_), RectQuery::Windows { bounds }) => match bounds {
                    Some((l, t, rr, b)) => Some(
                        crate::geometry::spec_rect_from_bounds(l, t, rr, b),
                    ),
                    None => None::<Rect>,
                },
                (
                    PlatformTrayView::MacOs(m),
                    RectQuery::MacOs { frame, pixels_high },
                ) => match frame {
                    Some((x, y, w, h)) => if m.created {
                        Some(crate::macos::spec_mac_tray_rect(x, y, w, h, pixels_high))
                    } else {
                        None::<Rect>
                    },
                    None => None::<Rect>,
                },
                _ => None::<Rect>,
            }),
    {
        match (&self.inner, query) {
            (PlatformTrayIcon::Windows(t), RectQuery::Windows { bounds }) => t.rect(bounds),
            (PlatformTrayIcon::MacOs(t), RectQuery::MacOs { frame, pixels_high }) => t.rect(
                frame,
                pixels_high,
            ),
            _ => None,
        }
    }

    /// Borrows the platform driver immutably.
    pub fn inner_ref(&self) -> (r: &PlatformTrayIcon)
        ensures
            r@ == self@.inner,
    {
        &self.inner
    }

    /// Borrows the platform driver, for platform-specific calls such as
    /// raw message handling on Windows or rectangle queries.
    pub fn inner(&mut self) -> (r: &mut PlatformTrayIcon)
        ensures
            r@ == old(self)@.inner,
            final(self)@.inner == final(r)@,
            final(self)@.id == old(self)@.id,
    {
        &mut self.inner
    }
}

/// The mathematical content of a builder: the id the tray icon will get
/// and the attribute snapshot assembled so far.
#[verifier::ext_equal]
pub ghost struct TrayIconBuilderView {
    pub id: Seq<char>,
    pub attrs: AttrsView,
}

/// Assembles a tray icon's configuration, then builds it.
#[derive(Debug)]
pub struct TrayIconBuilder {
    id: TrayIconId,
    attrs: TrayIconAttributes,
}

impl View for TrayIconBuilder {
    type V = TrayIconBuilderView;

    closed spec fn view(&self) -> TrayIconBuilderView {
        TrayIconBuilderView { id: self.id@, attrs: self.attrs@ }
    }
}

impl TrayIconBuilder {
    /// Creates a new builder with default attributes and an auto-assigned
    /// id drawn from the counter.
    pub fn new(counter: &mut Counter) -> (r: Self)
        requires
            old(counter).peek() < u32::MAX,
        ensures
            final(counter).peek() == old(counter).peek() + 1,
            r@ == (TrayIconBuilderView {
                id: dec_rep(old(counter).peek() as nat),
                attrs: AttrsView {
                    tooltip: None,
                    menu: None,
                    icon: None,
                    temp_dir_path: None,
                    icon_is_template: false,
                    menu_on_left_click: true,
                    title: None,
                },
            }),
    {
        TrayIconBuilder {
            id: TrayIconId(format_u32(counter.next())),
            attrs: TrayIconAttributes::default(),
        }
    }

    /// Sets the unique id to build the tray icon with.
    pub fn with_id(self, id: TrayIconId) -> (r: Self)
        ensures
            r@ == (TrayIconBuilderView { id: id@, ..self@ }),
    {
        TrayIconBuilder { id, ..self }
    }

    /// Sets the menu for this tray icon. On Linux, once a menu is set it
    /// cannot be removed, only replaced.
    pub fn with_menu(self, menu: MenuHandle) -> (r: Self)
        ensures
            r@ == (TrayIconBuilderView {
                attrs: AttrsView { menu: Some(menu), ..self@.attrs },
                ..self@
            }),
    {
        TrayIconBuilder {
            attrs: TrayIconAttributes { menu: Some(menu), ..self.attrs },
            ..self
        }
    }

    /// Sets the icon for this tray icon.
    pub fn with_icon(self, icon: Icon) -> (r: Self)
        ensures
            r@ == (TrayIconBuilderView {
                attrs: AttrsView { icon: Some(icon@), ..self@.attrs },
                ..self@
            }),
    {
        TrayIconBuilder {
            attrs: TrayIconAttributes { icon: Some(icon), ..self.attrs },
            ..self
        }
    }

    /// Sets the tooltip. Unsupported on Linux.
    pub fn with_tooltip(self, s: &str) -> (r: Self)
        ensures
            r@ == (TrayIconBuilderView {
                attrs: AttrsView { tooltip: Some(s@), ..self@.attrs },
                ..self@
            }),
    {
        TrayIconBuilder {
            attrs: TrayIconAttributes { tooltip: Some(s.to_owned()), ..self.attrs },
            ..self
        }
    }

    /// Sets the title. Unsupported on Windows.
    pub fn with_title(self, title: &str) -> (r: Self)
        ensures
            r@ == (TrayIconBuilderView {
                attrs: AttrsView { title: Some(title@), ..self@.attrs },
                ..self@
            }),
    {
        TrayIconBuilder {
            attrs: TrayIconAttributes { title: Some(title.to_owned()), ..self.attrs },
            ..self
        }
    }

    /// Sets the staging directory for icon files. Linux only.
    pub fn with_temp_dir_path(self, s: &str) -> (r: Self)
        ensures
            r@ == (TrayIconBuilderView {
                attrs: AttrsView { temp_dir_path: Some(s@), ..self@.attrs },
                ..self@
            }),
    {
        TrayIconBuilder {
            attrs: TrayIconAttributes { temp_dir_path: Some(s.to_owned()), ..self.attrs },
            ..self
        }
    }

    /// Uses the icon as a template image. macOS only.
    pub fn with_icon_as_template(self, is_template: bool) -> (r: Self)
        ensures
            r@ == (TrayIconBuilderView {
                attrs: AttrsView { icon_is_template: is_template, ..self@.attrs },
                ..self@
            }),
    {
        TrayIconBuilder {
            attrs: TrayIconAttributes { icon_is_template: is_template, ..self.attrs },
            ..self
        }
    }

    /// Whether to show the tray menu on left click, default true. macOS
    /// only.
    pub fn with_menu_on_left_click(self, enable: bool) -> (r: Self)
        ensures
            r@ == (TrayIconBuilderView {
                attrs: AttrsView { menu_on_left_click: enable, ..self@.attrs },
                ..self@
            }),
    {
        TrayIconBuilder {
            attrs: TrayIconAttributes { menu_on_left_click: enable, ..self.attrs },
            ..self
        }
    }

    /// Accesses the unique id that will be assigned to the tray icon this
    /// builder will create.
    pub fn id(&self) -> (r: &TrayIconId)
        ensures
            r@ == self@.id,
    {
        &self.id
    }

    /// Builds and adds a new tray icon to the system tray; see
    /// [`TrayIcon::with_id`] for the full contract.
    pub fn build(self, ctx: PlatformContext, counter: &mut Counter) -> (r: Result<
        (TrayIcon, NativeCommands),
        Error,
    >)
        requires
            old(counter).peek() < u32::MAX,
        ensures
            r matches Ok((t, cmds)) ==> {
                &&& t@.id == self@.id
                &&& platform_attrs(t@.inner).0 == (match ctx {
                    PlatformContext::Gtk { .. } => self@.attrs.icon,
                    PlatformContext::Windows => self@.attrs.icon,
                    PlatformContext::MacOs { .. } => self@.attrs.icon,
                })
                &&& platform_attrs(t@.inner).3 == self@.attrs.menu
                &&& platform_visible(t@.inner)
            },
            (ctx matches PlatformContext::MacOs { main_thread } && !main_thread) ==> (r matches Err(
                e,
            ) && e is NotMainThread),
            ctx is Windows ==> r is Ok,
            (ctx matches PlatformContext::MacOs { main_thread } && main_thread
                && crate::icon::opt_icon_encodable(self@.attrs.icon)) ==> r is Ok,
            (ctx is Gtk && crate::icon::opt_icon_encodable(self@.attrs.icon)) ==> r is Ok,
            (ctx matches PlatformContext::MacOs { main_thread } && main_thread) ==> (
            r matches Err(e) ==> e is PngEncodingError),
            ctx is Gtk ==> (r matches Err(e) ==> e is PngEncodingError),
    {
        TrayIcon::with_id(self.id, self.attrs, ctx, counter)
    }
}

} // verus!
