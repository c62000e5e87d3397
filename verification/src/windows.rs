//! The Windows driver: a hidden message-only window receives raw shell
//! notifications (button presses, releases, double clicks, mouse moves) on
//! a callback message, and the driver synthesizes the unified event model
//! from them. Enter is synthesized the first time a Move arrives while not
//! hovering; redundant Moves at an unchanged position are suppressed; Leave
//! is synthesized by a recurring timer that polls the cursor against the
//! icon's rectangle. Native calls are returned as [`WinCommand`] values for
//! the host's message pump to perform.

use vstd::prelude::*;

use crate::attributes::{AttrsView, MenuHandle, TrayIconAttributes};
use crate::error::Error;
use crate::event::{MouseButton, MouseButtonState, TrayIconEvent, TrayIconEventView};
use crate::geometry::{spec_rect_contains, PhysicalPosition, Rect};
use crate::icon::{and_mask_of, bgra_of, rgba_to_bgra_and_mask, Icon, IconView};
use crate::tray_icon_id::TrayIconId;

verus! {

/// A raw mouse notification delivered on the tray's callback message.
#[derive(Clone, Copy, Debug, PartialEq, Eq, Structural)]
pub enum MouseMsg {
    LButtonDown,
    RButtonDown,
    MButtonDown,
    LButtonUp,
    RButtonUp,
    MButtonUp,
    LButtonDblClk,
    RButtonDblClk,
    MButtonDblClk,
    MouseMove,
}

/// One native call for the host's message loop to perform.
#[derive(Clone, Debug)]
pub enum WinCommand {
    /// Register the hidden window class (idempotent per process).
    RegisterClass,
    /// Create the hidden message-only window.
    CreateWindow,
    /// Build the native icon bitmap from converted pixel data.
    CreateNativeBitmap { width: u32, height: u32, bgra: Vec<u8>, and_mask: Vec<u8> },
    /// Register the icon with the shell notification area.
    AddIcon { internal_id: u32, flags: u32, sz_tip: Vec<u16> },
    /// Replace the registered icon's image.
    ModifyIcon { internal_id: u32, has_icon: bool },
    /// Replace the registered icon's tooltip.
    ModifyTooltip { internal_id: u32, sz_tip: Vec<u16> },
    /// Remove the icon from the shell notification area.
    DeleteIcon { internal_id: u32 },
    /// Start (or refresh) the short-interval timer that polls for Leave.
    SetLeaveTimer,
    /// Stop the Leave-polling timer.
    KillLeaveTimer,
    /// Foreground the hidden window and open the popup menu at the given
    /// cursor position, so the menu dismisses on outside click.
    ShowMenu { menu: MenuHandle, x: i64, y: i64 },
    /// Attach the menu's message handling to the hidden window.
    AttachMenu { menu: MenuHandle },
    /// Detach the menu's message handling from the hidden window.
    DetachMenu { menu: MenuHandle },
    /// Destroy the hidden window.
    DestroyWindow,
}

/// The mathematical content of a [`WinCommand`].
#[verifier::ext_equal]
pub ghost enum WinCommandView {
    RegisterClass,
    CreateWindow,
    CreateNativeBitmap { width: u32, height: u32, bgra: Seq<u8>, and_mask: Seq<u8> },
    AddIcon { internal_id: u32, flags: u32, sz_tip: Seq<u16> },
    ModifyIcon { internal_id: u32, has_icon: bool },
    ModifyTooltip { internal_id: u32, sz_tip: Seq<u16> },
    DeleteIcon { internal_id: u32 },
    SetLeaveTimer,
    KillLeaveTimer,
    ShowMenu { menu: MenuHandle, x: i64, y: i64 },
    AttachMenu { menu: MenuHandle },
    DetachMenu { menu: MenuHandle },
    DestroyWindow,
}

impl View for WinCommand {
    type V = WinCommandView;

    open spec fn view(&self) -> WinCommandView {
        match self {
            WinCommand::RegisterClass => WinCommandView::RegisterClass,
            WinCommand::CreateWindow => WinCommandView::CreateWindow,
            WinCommand::CreateNativeBitmap { width, height, bgra, and_mask } => {
                WinCommandView::CreateNativeBitmap {
                    width: *width,
                    height: *height,
                    bgra: bgra@,
                    and_mask: and_mask@,
                }
            },
            WinCommand::AddIcon { internal_id, flags, sz_tip } => WinCommandView::AddIcon {
                internal_id: *internal_id,
                flags: *flags,
                sz_tip: sz_tip@,
            },
            WinCommand::ModifyIcon { internal_id, has_icon } => WinCommandView::ModifyIcon {
                internal_id: *internal_id,
                has_icon: *has_icon,
            },
            WinCommand::ModifyTooltip { internal_id, sz_tip } => WinCommandView::ModifyTooltip {
                internal_id: *internal_id,
                sz_tip: sz_tip@,
            },
            WinCommand::DeleteIcon { internal_id } => WinCommandView::DeleteIcon {
                internal_id: *internal_id,
            },
            WinCommand::SetLeaveTimer => WinCommandView::SetLeaveTimer,
            WinCommand::KillLeaveTimer => WinCommandView::KillLeaveTimer,
            WinCommand::ShowMenu { menu, x, y } => WinCommandView::ShowMenu {
                menu: *menu,
                x: *x,
                y: *y,
            },
            WinCommand::AttachMenu { menu } => WinCommandView::AttachMenu { menu: *menu },
            WinCommand::DetachMenu { menu } => WinCommandView::DetachMenu { menu: *menu },
            WinCommand::DestroyWindow => WinCommandView::DestroyWindow,
        }
    }
}

/// The views of a command list, in order.
pub open spec fn win_cmd_views(cmds: Seq<WinCommand>) -> Seq<WinCommandView> {
    cmds.map_values(|c: WinCommand| c@)
}

/// The UTF-16 code units of one character: the scalar value itself below
/// 0x10000, else a surrogate pair.
pub open spec fn utf16_units_of(c: char) -> Seq<u16> {
    let v = c as u32;
    if v < 0x10000 {
        seq![v as u16]
    } else {
        seq![
            (0xD800 + (v - 0x10000) / 0x400) as u16,
            (0xDC00 + (v - 0x10000) % 0x400) as u16,
        ]
    }
}

/// The UTF-16 encoding of a character sequence.
pub open spec fn utf16_of(s: Seq<char>) -> Seq<u16>
    decreases s.len(),
{
    if s.len() == 0 {
        Seq::empty()
    } else {
        utf16_units_of(s[0]) + utf16_of(s.drop_first())
    }
}

/// Appending one character appends its code units.
proof fn lemma_utf16_snoc(s: Seq<char>)
    requires
        s.len() > 0,
    ensures
        utf16_of(s) == utf16_of(s.drop_last()) + utf16_units_of(s.last()),
    decreases s.len(),
{
    if s.len() == 1 {
        assert(s.drop_last() =~= Seq::<char>::empty());
        assert(s.drop_first() =~= Seq::<char>::empty());
        assert(utf16_of(s) =~= utf16_of(s.drop_last()) + utf16_units_of(s.last()));
    } else {
        lemma_utf16_snoc(s.drop_first());
        assert(s.drop_first().drop_last() =~= s.drop_last().drop_first());
        assert(s.drop_first().last() == s.last());
        assert(s.drop_last().len() > 0 && s.drop_last()[0] == s[0]);
        assert(utf16_of(s.drop_last()) == utf16_units_of(s[0]) + utf16_of(
            s.drop_last().drop_first(),
        ));
        assert(utf16_of(s) =~= utf16_of(s.drop_last()) + utf16_units_of(s.last()));
    }
}

/// Encodes a string as UTF-16 with a trailing NUL unit, the form the
/// wide-string shell interfaces expect.
pub fn encode_wide(s: &str) -> (r: Vec<u16>)
    ensures
        r@ == utf16_of(s@) + seq![0u16],
{
    let len = s.unicode_len();
    let mut out: Vec<u16> = Vec::new();
    let mut i: usize = 0;
    while i < len
        invariant
            len == s@.len(),
            i <= len,
            out@ == utf16_of(s@.take(i as int)),
        decreases len - i,
    {
        let c = s.get_char(i);
        let v: u32 = c as u32;
        proof {
            vstd::utf8::char_is_scalar(c);
        }
        if v < 0x10000 {
            out.push(v as u16);
        } else {
            let off: u32 = v - 0x10000;
            proof {
                assert(off / 0x400 <= 0x3FF) by (nonlinear_arith)
                    requires
                        off <= 0xFFFFF,
                ;
            }
            out.push((0xD800 + off / 0x400) as u16);
            out.push((0xDC00 + off % 0x400) as u16);
        }
        proof {
            assert(s@.take(i + 1).drop_last() =~= s@.take(i as int));
            assert(s@.take(i + 1).last() == s@[i as int]);
            lemma_utf16_snoc(s@.take(i + 1));
            assert(out@ =~= utf16_of(s@.take(i + 1)));
        }
        i = i + 1;
    }
    proof {
        assert(s@.take(len as int) =~= s@);
    }
    out.push(0);
    out
}

/// The 128-unit tooltip buffer of the shell registration record: the
/// wide-encoded tooltip with its trailing NUL, truncated to the buffer's
/// 128 units and zero-padded; all zeros when no tooltip is set.
pub open spec fn sz_tip_spec(tooltip: Option<Seq<char>>) -> Seq<u16> {
    match tooltip {
        Some(t) => {
            let wide = utf16_of(t) + seq![0u16];
            if wide.len() >= 128 {
                wide.take(128)
            } else {
                wide + Seq::new((128 - wide.len()) as nat, |i: int| 0u16)
            }
        },
        None => Seq::new(128, |i: int| 0u16),
    }
}

/// Builds the 128-unit tooltip buffer; see [`sz_tip_spec`].
pub fn tooltip_buffer(tooltip: Option<&str>) -> (r: Vec<u16>)
    ensures
        r@ == sz_tip_spec(
            match tooltip {
                Some(t) => Some(t@),
                None => None,
            },
        ),
{
    let mut out: Vec<u16> = Vec::new();
    let mut i: usize = 0;
    while i < 128
        invariant
            i <= 128,
            out@.len() == i,
            forall|j: int| 0 <= j < i ==> out@[j] == 0u16,
        decreases 128 - i,
    {
        out.push(0);
        i = i + 1;
    }
    match tooltip {
        Some(t) => {
            let wide = encode_wide(t);
            let n: usize = if wide.len() < 128 {
                wide.len()
            } else {
                128
            };
            let mut k: usize = 0;
            while k < n
                invariant
                    n <= wide@.len(),
                    n <= 128,
                    k <= n,
                    out@.len() == 128,
                    forall|j: int| 0 <= j < k ==> out@[j] == wide@[j],
                    forall|j: int| k <= j < 128 ==> out@[j] == 0u16,
                decreases n - k,
            {
                let unit = wide[k];
                out.set(k, unit);
                k = k + 1;
            }
            proof {
                assert(out@ =~= sz_tip_spec(Some(t@)));
            }
        },
        None => {
            proof {
                assert(out@ =~= sz_tip_spec(None));
            }
        },
    }
    out
}

/// The shell registration flags: the callback-message flag always, plus
/// the icon flag when an image is registered and the tip flag when a
/// tooltip is.
pub open spec fn notify_flags_spec(has_icon: bool, has_tooltip: bool) -> u32 {
    (1 + (if has_icon {
        2int
    } else {
        0int
    }) + (if has_tooltip {
        4int
    } else {
        0int
    })) as u32
}

/// Computes the shell registration flags.
pub fn notify_icon_flags(has_icon: bool, has_tooltip: bool) -> (r: u32)
    ensures
        r == notify_flags_spec(has_icon, has_tooltip),
{
    let mut flags: u32 = 1;
    if has_icon {
        flags = flags + 2;
    }
    if has_tooltip {
        flags = flags + 4;
    }
    flags
}

/// The mathematical content of the Windows driver's state.
#[verifier::ext_equal]
pub ghost struct WinTrayView {
    pub id: Seq<char>,
    pub internal_id: u32,
    pub icon: Option<IconView>,
    pub tooltip: Option<Seq<char>>,
    pub menu: Option<MenuHandle>,
    pub menu_on_left_click: bool,
    pub entered: bool,
    pub last_position: Option<PhysicalPosition>,
    pub registered: bool,
}

/// One step's outcome for a raw mouse notification: the successor state,
/// the event to emit (if any), whether the Leave-polling timer must be
/// (re)started, and whether the popup menu must be shown at the cursor.
#[verifier::ext_equal]
pub ghost struct WinStep {
    pub state: WinTrayView,
    pub event: Option<TrayIconEventView>,
    pub set_timer: bool,
    pub show_menu: bool,
}

/// The driver's reaction to one raw mouse notification, given the current
/// cursor position and the icon's rectangle:
/// - a button press, release or double click becomes the matching Click or
///   DoubleClick event;
/// - a Move while not hovering becomes Enter and records the hover;
/// - a Move while hovering becomes Move only when the cursor actually
///   moved since the last recorded position (redundant native Moves are
///   suppressed), and starts the Leave-polling timer;
/// - a right press, or a left press when the menu-on-left-click attribute
///   is set, additionally shows the attached menu (when there is one).
pub open spec fn win_step(
    s: WinTrayView,
    msg: MouseMsg,
    cursor: PhysicalPosition,
    rect: Rect,
) -> WinStep {
    match msg {
        MouseMsg::LButtonDown => WinStep {
            state: s,
            event: Some(
                TrayIconEventView::Click {
                    id: s.id,
                    position: cursor,
                    rect,
                    button: MouseButton::Left,
                    button_state: MouseButtonState::Down,
                },
            ),
            set_timer: false,
            show_menu: s.menu_on_left_click && s.menu is Some,
        },
        MouseMsg::RButtonDown => WinStep {
            state: s,
            event: Some(
                TrayIconEventView::Click {
                    id: s.id,
                    position: cursor,
                    rect,
                    button: MouseButton::Right,
                    button_state: MouseButtonState::Down,
                },
            ),
            set_timer: false,
            show_menu: s.menu is Some,
        },
        MouseMsg::MButtonDown => WinStep {
            state: s,
            event: Some(
                TrayIconEventView::Click {
                    id: s.id,
                    position: cursor,
                    rect,
                    button: MouseButton::Middle,
                    button_state: MouseButtonState::Down,
                },
            ),
            set_timer: false,
            show_menu: false,
        },
        MouseMsg::LButtonUp => WinStep {
            state: s,
            event: Some(
                TrayIconEventView::Click {
                    id: s.id,
                    position: cursor,
                    rect,
                    button: MouseButton::Left,
                    button_state: MouseButtonState::Up,
                },
            ),
            set_timer: false,
            show_menu: false,
        },
        MouseMsg::RButtonUp => WinStep {
            state: s,
            event: Some(
                TrayIconEventView::Click {
                    id: s.id,
                    position: cursor,
                    rect,
                    button: MouseButton::Right,
                    button_state: MouseButtonState::Up,
                },
            ),
            set_timer: false,
            show_menu: false,
        },
        MouseMsg::MButtonUp => WinStep {
            state: s,
            event: Some(
                TrayIconEventView::Click {
                    id: s.id,
                    position: cursor,
                    rect,
                    button: MouseButton::Middle,
                    button_state: MouseButtonState::Up,
                },
            ),
            set_timer: false,
            show_menu: false,
        },
        MouseMsg::LButtonDblClk => WinStep {
            state: s,
            event: Some(
                TrayIconEventView::DoubleClick {
                    id: s.id,
                    position: cursor,
                    rect,
                    button: MouseButton::Left,
                },
            ),
            set_timer: false,
            show_menu: false,
        },
        MouseMsg::RButtonDblClk => WinStep {
            state: s,
            event: Some(
                TrayIconEventView::DoubleClick {
                    id: s.id,
                    position: cursor,
                    rect,
                    button: MouseButton::Right,
                },
            ),
            set_timer: false,
            show_menu: false,
        },
        MouseMsg::MButtonDblClk => WinStep {
            state: s,
            event: Some(
                TrayIconEventView::DoubleClick {
                    id: s.id,
                    position: cursor,
                    rect,
                    button: MouseButton::Middle,
                },
            ),
            set_timer: false,
            show_menu: false,
        },
        MouseMsg::MouseMove => {
            if !s.entered {
                WinStep {
                    state: WinTrayView { entered: true, ..s },
                    event: Some(
                        TrayIconEventView::Enter { id: s.id, position: cursor, rect },
                    ),
                    set_timer: false,
                    show_menu: false,
                }
            } else if s.last_position != Some(cursor) {
                WinStep {
                    state: WinTrayView { last_position: Some(cursor), ..s },
                    event: Some(TrayIconEventView::Move { id: s.id, position: cursor, rect }),
                    set_timer: true,
                    show_menu: false,
                }
            } else {
                WinStep {
                    state: WinTrayView { last_position: Some(cursor), ..s },
                    event: None,
                    set_timer: false,
                    show_menu: false,
                }
            }
        },
    }
}

/// One timer tick's outcome: the successor state, the Leave event to emit
/// (if any) and whether the polling timer must be cancelled.
#[verifier::ext_equal]
pub ghost struct WinTimerStep {
    pub state: WinTrayView,
    pub event: Option<TrayIconEventView>,
    pub kill_timer: bool,
}

/// The driver's reaction to one Leave-polling timer tick. The recorded
/// hover position is always consumed; when the cursor could be read and
/// the icon's rectangle obtained, and the cursor lies outside it, the
/// hover ends: the timer is cancelled and a Leave event carrying the
/// consumed position is emitted.
pub open spec fn win_timer_step(
    s: WinTrayView,
    cursor: Option<PhysicalPosition>,
    rect: Option<Rect>,
) -> WinTimerStep {
    match s.last_position {
        Some(pos) => {
            let s1 = WinTrayView { last_position: None, ..s };
            match (cursor, rect) {
                (Some(c), Some(rc)) => {
                    if !spec_rect_contains(rc, c) {
                        WinTimerStep {
                            state: WinTrayView { entered: false, ..s1 },
                            event: Some(
                                TrayIconEventView::Leave { id: s.id, position: pos, rect: rc },
                            ),
                            kill_timer: true,
                        }
                    } else {
                        WinTimerStep { state: s1, event: None, kill_timer: false }
                    }
                },
                _ => WinTimerStep { state: s1, event: None, kill_timer: false },
            }
        },
        None => WinTimerStep { state: s, event: None, kill_timer: false },
    }
}

/// The commands that register the icon with the shell: build the native
/// bitmap when an image is configured, then add the icon with the matching
/// flags and tooltip.
pub open spec fn register_cmd_views(
    icon: Option<IconView>,
    tooltip: Option<Seq<char>>,
    internal_id: u32,
) -> Seq<WinCommandView> {
    (match icon {
        Some(iv) => seq![
            WinCommandView::CreateNativeBitmap {
                width: iv.width,
                height: iv.height,
                bgra: bgra_of(iv.rgba),
                and_mask: and_mask_of(iv.rgba),
            },
        ],
        None => seq![],
    }) + seq![
        WinCommandView::AddIcon {
            internal_id,
            flags: notify_flags_spec(icon is Some, tooltip is Some),
            sz_tip: sz_tip_spec(tooltip),
        },
    ]
}

/// The live Windows tray icon driver state: the mirrored attributes, the
/// hover-synthesis bookkeeping, and the shell registration flag. The
/// hidden window and the native handles live with the host, which performs
/// the returned commands.
#[derive(Debug)]
pub struct WinTrayIcon {
    id: TrayIconId,
    internal_id: u32,
    icon: Option<Icon>,
    tooltip: Option<String>,
    menu: Option<MenuHandle>,
    menu_on_left_click: bool,
    entered: bool,
    last_position: Option<PhysicalPosition>,
    registered: bool,
}

impl View for WinTrayIcon {
    type V = WinTrayView;

    closed spec fn view(&self) -> WinTrayView {
        WinTrayView {
            id: self.id@,
            internal_id: self.internal_id,
            icon: match self.icon {
                Some(i) => Some(i@),
                None => None,
            },
            tooltip: match self.tooltip {
                Some(t) => Some(t@),
                None => None,
            },
            menu: self.menu,
            menu_on_left_click: self.menu_on_left_click,
            entered: self.entered,
            last_position: self.last_position,
            registered: self.registered,
        }
    }
}

/// The commands construction issues, in order: register the window class,
/// create the hidden window, register the icon with the shell, and attach
/// the menu when one is configured.
pub open spec fn win_new_cmd_views(a: AttrsView, internal_id: u32) -> Seq<WinCommandView> {
    seq![WinCommandView::RegisterClass, WinCommandView::CreateWindow] + register_cmd_views(
        a.icon,
        a.tooltip,
        internal_id,
    ) + (match a.menu {
        Some(m) => seq![WinCommandView::AttachMenu { menu: m }],
        None => seq![],
    })
}

/// The state of a freshly constructed Windows driver: the attributes
/// mirrored, no hover recorded, and the icon registered.
pub open spec fn win_new_state(id: Seq<char>, a: AttrsView, internal_id: u32) -> WinTrayView {
    WinTrayView {
        id,
        internal_id,
        icon: a.icon,
        tooltip: a.tooltip,
        menu: a.menu,
        menu_on_left_click: a.menu_on_left_click,
        entered: false,
        last_position: None,
        registered: true,
    }
}

/// The state after a visibility change: only the registration flag moves.
pub open spec fn win_set_visible_state(s: WinTrayView, visible: bool) -> WinTrayView {
    WinTrayView { registered: visible, ..s }
}

/// Hiding a tray icon and then showing it again restores exactly the
/// freshly constructed state: the mirrored icon, tooltip and menu survive
/// the visibility toggle.
pub proof fn lemma_visibility_roundtrip(id: Seq<char>, a: AttrsView, internal_id: u32)
    ensures
        win_set_visible_state(
            win_set_visible_state(win_new_state(id, a, internal_id), false),
            true,
        ) == win_new_state(id, a, internal_id),
{
    assert(win_set_visible_state(
        win_set_visible_state(win_new_state(id, a, internal_id), false),
        true,
    ) =~= win_new_state(id, a, internal_id));
}

impl WinTrayIcon {
    /// Creates the driver state and the commands that build the hidden
    /// window and register the icon with the shell: register the window
    /// class, create the window, register the icon, and attach the menu
    /// when one is configured. The title and staging-directory attributes
    /// are not used on this platform.
    pub fn new(id: TrayIconId, attrs: TrayIconAttributes, internal_id: u32) -> (r: (
        WinTrayIcon,
        Vec<WinCommand>,
    ))
        ensures
            r.0@ == win_new_state(id@, attrs@, internal_id),
            win_cmd_views(r.1@) == win_new_cmd_views(attrs@, internal_id),
    {
        let mut cmds: Vec<WinCommand> = Vec::new();
        cmds.push(WinCommand::RegisterClass);
        cmds.push(WinCommand::CreateWindow);
        proof {
            assert(win_cmd_views(cmds@) =~= seq![
                WinCommandView::RegisterClass,
                WinCommandView::CreateWindow,
            ]);
        }
        push_register_commands(&attrs.icon, &attrs.tooltip, internal_id, &mut cmds);
        let ghost mid: Seq<WinCommandView> = win_cmd_views(cmds@);
        match &attrs.menu {
            Some(m) => {
                cmds.push(WinCommand::AttachMenu { menu: *m });
                proof {
                    assert(win_cmd_views(cmds@) =~= mid + seq![
                        WinCommandView::AttachMenu { menu: *m },
                    ]);
                }
            },
            None => (),
        }
        proof {
            assert(win_cmd_views(cmds@) =~= seq![
                WinCommandView::RegisterClass,
                WinCommandView::CreateWindow,
            ] + register_cmd_views(attrs@.icon, attrs@.tooltip, internal_id) + (
            match attrs@.menu {
                Some(m) => seq![WinCommandView::AttachMenu { menu: m }],
                None => seq![],
            }));
        }
        let tray = WinTrayIcon {
            id,
            internal_id,
            icon: attrs.icon,
            tooltip: attrs.tooltip,
            menu: attrs.menu,
            menu_on_left_click: attrs.menu_on_left_click,
            entered: false,
            last_position: None,
            registered: true,
        };
        (tray, cmds)
    }

    /// Handles one raw mouse notification from the shell, as
    /// [`win_step`] describes: returns the normalized event to emit (if
    /// any) and the native commands to perform.
    pub fn on_tray_message(&mut self, msg: MouseMsg, cursor: PhysicalPosition, rect: Rect) -> (r: (
        Option<TrayIconEvent>,
        Vec<WinCommand>,
    ))
        ensures
            ({
                let st = win_step(old(self)@, msg, cursor, rect);
                &&& final(self)@ == st.state
                &&& r.0.deep_view() == st.event
                &&& win_cmd_views(r.1@) == (if st.set_timer {
                    seq![WinCommandView::SetLeaveTimer]
                } else {
                    Seq::<WinCommandView>::empty()
                }) + (if st.show_menu {
                    seq![
                        WinCommandView::ShowMenu {
                            menu: old(self)@.menu->0,
                            x: cursor.x,
                            y: cursor.y,
                        },
                    ]
                } else {
                    Seq::<WinCommandView>::empty()
                })
            }),
    {
        let mut cmds: Vec<WinCommand> = Vec::new();
        let event: Option<TrayIconEvent> = match msg {
            MouseMsg::LButtonDown => Some(
                TrayIconEvent::Click {
                    id: self.id.clone(),
                    position: cursor,
                    rect,
                    button: MouseButton::Left,
                    button_state: MouseButtonState::Down,
                },
            ),
            MouseMsg::RButtonDown => Some(
                TrayIconEvent::Click {
                    id: self.id.clone(),
                    position: cursor,
                    rect,
                    button: MouseButton::Right,
                    button_state: MouseButtonState::Down,
                },
            ),
            MouseMsg::MButtonDown => Some(
                TrayIconEvent::Click {
                    id: self.id.clone(),
                    position: cursor,
                    rect,
                    button: MouseButton::Middle,
                    button_state: MouseButtonState::Down,
                },
            ),
            MouseMsg::LButtonUp => Some(
                TrayIconEvent::Click {
                    id: self.id.clone(),
                    position: cursor,
                    rect,
                    button: MouseButton::Left,
                    button_state: MouseButtonState::Up,
                },
            ),
            MouseMsg::RButtonUp => Some(
                TrayIconEvent::Click {
                    id: self.id.clone(),
                    position: cursor,
                    rect,
                    button: MouseButton::Right,
                    button_state: MouseButtonState::Up,
                },
            ),
            MouseMsg::MButtonUp => Some(
                TrayIconEvent::Click {
                    id: self.id.clone(),
                    position: cursor,
                    rect,
                    button: MouseButton::Middle,
                    button_state: MouseButtonState::Up,
                },
            ),
            MouseMsg::LButtonDblClk => Some(
                TrayIconEvent::DoubleClick {
                    id: self.id.clone(),
                    position: cursor,
                    rect,
                    button: MouseButton::Left,
                },
            ),
            MouseMsg::RButtonDblClk => Some(
                TrayIconEvent::DoubleClick {
                    id: self.id.clone(),
                    position: cursor,
                    rect,
                    button: MouseButton::Right,
                },
            ),
            MouseMsg::MButtonDblClk => Some(
                TrayIconEvent::DoubleClick {
                    id: self.id.clone(),
                    position: cursor,
                    rect,
                    button: MouseButton::Middle,
                },
            ),
            MouseMsg::MouseMove => {
                if !self.entered {
                    self.entered = true;
                    Some(TrayIconEvent::Enter { id: self.id.clone(), position: cursor, rect })
                } else {
                    let moved: bool = match &self.last_position {
                        Some(p) => !(p.x == cursor.x && p.y == cursor.y),
                        None => true,
                    };
                    self.last_position = Some(cursor);
                    if moved {
                        cmds.push(WinCommand::SetLeaveTimer);
                        Some(TrayIconEvent::Move { id: self.id.clone(), position: cursor, rect })
                    } else {
                        None
                    }
                }
            },
        };
        let wants_menu: bool = match msg {
            MouseMsg::RButtonDown => true,
            MouseMsg::LButtonDown => self.menu_on_left_click,
            _ => false,
        };
        if wants_menu {
            match &self.menu {
                Some(m) => cmds.push(WinCommand::ShowMenu { menu: *m, x: cursor.x, y: cursor.y }),
                None => (),
            }
        }
        proof {
            let st = win_step(old(self)@, msg, cursor, rect);
            assert(win_cmd_views(cmds@) =~= (if st.set_timer {
                seq![WinCommandView::SetLeaveTimer]
            } else {
                Seq::<WinCommandView>::empty()
            }) + (if st.show_menu {
                seq![
                    WinCommandView::ShowMenu { menu: old(self)@.menu->0, x: cursor.x, y: cursor.y },
                ]
            } else {
                Seq::<WinCommandView>::empty()
            }));
        }
        (event, cmds)
    }

    /// Handles one raw mouse notification and routes the resulting event
    /// (if any) into the process-wide sink. Events enter the sink in the
    /// order the notifications were delivered: each emitted event is
    /// appended to the buffered queue, or handed back for the host's
    /// callback when that delivery mode is active. When nothing is
    /// emitted, the sink is untouched.
    pub fn process_message(
        &mut self,
        router: &mut crate::channel::EventRouter,
        msg: MouseMsg,
        cursor: PhysicalPosition,
        rect: Rect,
    ) -> (r: (Option<TrayIconEvent>, Vec<WinCommand>))
        ensures
            ({
                let st = win_step(old(self)@, msg, cursor, rect);
                &&& final(self)@ == st.state
                &&& match st.event {
                    Some(ev) => {
                        &&& final(router)@.configured
                        &&& final(router)@.use_handler == old(router)@.use_handler
                        &&& (!old(router)@.use_handler ==> {
                            &&& r.0 is None
                            &&& final(router)@.queued.len() == old(router)@.queued.len() + 1
                            &&& final(router)@.queued.drop_last() == old(router)@.queued
                            &&& final(router)@.queued.last()@ == ev
                        })
                        &&& (old(router)@.use_handler ==> {
                            &&& final(router)@.queued == old(router)@.queued
                            &&& r.0 matches Some(e) && e@ == ev
                        })
                    },
                    None => final(router)@ == old(router)@ && r.0 is None,
                }
                &&& win_cmd_views(r.1@) == (if st.set_timer {
                    seq![WinCommandView::SetLeaveTimer]
                } else {
                    Seq::<WinCommandView>::empty()
                }) + (if st.show_menu {
                    seq![
                        WinCommandView::ShowMenu {
                            menu: old(self)@.menu->0,
                            x: cursor.x,
                            y: cursor.y,
                        },
                    ]
                } else {
                    Seq::<WinCommandView>::empty()
                })
            }),
    {
        let (event, cmds) = self.on_tray_message(msg, cursor, rect);
        match event {
            Some(ev) => {
                let handed_back = router.send(ev);
                proof {
                    if !old(router)@.use_handler {
                        assert(final(router)@.queued.drop_last() =~= old(router)@.queued);
                    }
                }
                (handed_back, cmds)
            },
            None => (None, cmds),
        }
    }

    /// Handles one Leave-polling timer tick, as [`win_timer_step`]
    /// describes. `cursor` and `rect` are the results of the host's cursor
    /// and icon-rectangle queries, `None` where a query failed.
    pub fn on_leave_timer(&mut self, cursor: Option<PhysicalPosition>, rect: Option<Rect>) -> (r: (
        Option<TrayIconEvent>,
        Vec<WinCommand>,
    ))
        ensures
            ({
                let st = win_timer_step(old(self)@, cursor, rect);
                &&& final(self)@ == st.state
                &&& r.0.deep_view() == st.event
                &&& win_cmd_views(r.1@) == (if st.kill_timer {
                    seq![WinCommandView::KillLeaveTimer]
                } else {
                    Seq::<WinCommandView>::empty()
                })
            }),
    {
        let mut cmds: Vec<WinCommand> = Vec::new();
        proof {
            assert(win_cmd_views(cmds@) =~= Seq::<WinCommandView>::empty());
        }
        let lp: Option<PhysicalPosition> = self.last_position;
        self.last_position = None;
        let pos: PhysicalPosition = match lp {
            Some(p) => p,
            None => {
                return (None, cmds);
            },
        };
        let c: PhysicalPosition = match cursor {
            Some(c) => c,
            None => {
                return (None, cmds);
            },
        };
        let rc: Rect = match rect {
            Some(rc) => rc,
            None => {
                return (None, cmds);
            },
        };
        if !rc.contains(c) {
            cmds.push(WinCommand::KillLeaveTimer);
            self.entered = false;
            let event = TrayIconEvent::Leave { id: self.id.clone(), position: pos, rect: rc };
            proof {
                assert(win_cmd_views(cmds@) =~= seq![WinCommandView::KillLeaveTimer]);
            }
            (Some(event), cmds)
        } else {
            (None, cmds)
        }
    }

    /// Handles the shell's "taskbar recreated" broadcast: the icon is
    /// re-registered with identical attributes. This is internal recovery:
    /// the mirrored state is unchanged and no error reaches the
    /// application.
    pub fn on_taskbar_restart(&mut self) -> (cmds: Vec<WinCommand>)
        ensures
            final(self)@ == old(self)@,
            win_cmd_views(cmds@) == seq![
                WinCommandView::DeleteIcon { internal_id: old(self)@.internal_id },
            ] + register_cmd_views(old(self)@.icon, old(self)@.tooltip, old(self)@.internal_id),
    {
        let mut cmds: Vec<WinCommand> = Vec::new();
        cmds.push(WinCommand::DeleteIcon { internal_id: self.internal_id });
        push_register_commands(&self.icon, &self.tooltip, self.internal_id, &mut cmds);
        cmds
    }

    /// First half of an icon change: the commands that build the native
    /// bitmap (when an image is given) and modify the shell entry. The
    /// mirror is untouched until the host reports the shell's answer to
    /// [`WinTrayIcon::complete_set_icon`], so the mirror takes a new
    /// attribute only after the corresponding native call succeeded.
    pub fn set_icon(&self, icon: &Option<Icon>) -> (cmds: Vec<WinCommand>)
        ensures
            win_cmd_views(cmds@) == (match icon {
                Some(i) => seq![
                    WinCommandView::CreateNativeBitmap {
                        width: i@.width,
                        height: i@.height,
                        bgra: bgra_of(i@.rgba),
                        and_mask: and_mask_of(i@.rgba),
                    },
                ],
                None => Seq::<WinCommandView>::empty(),
            }) + seq![
                WinCommandView::ModifyIcon {
                    internal_id: self@.internal_id,
                    has_icon: icon is Some,
                },
            ],
    {
        let mut cmds: Vec<WinCommand> = Vec::new();
        match icon {
            Some(i) => push_bitmap_command(i, &mut cmds),
            None => (),
        }
        cmds.push(
            WinCommand::ModifyIcon { internal_id: self.internal_id, has_icon: icon.is_some() },
        );
        cmds
    }

    /// Second half of an icon change: the host reports the shell's answer
    /// to the modify command. On success the mirror takes the new icon,
    /// keeping it alive for later re-registration; on failure the mirror
    /// is left unchanged and the native error is surfaced as `OsError`,
    /// exactly as the platform reported it.
    pub fn complete_set_icon(&mut self, icon: Option<Icon>, native: Result<(), String>) -> (r:
        Result<(), Error>)
        ensures
            native is Ok ==> final(self)@ == (WinTrayView {
                icon: match icon {
                    Some(i) => Some(i@),
                    None => None,
                },
                ..old(self)@
            }) && r is Ok,
            native matches Err(m) ==> final(self)@ == old(self)@ && (r matches Err(e)
                && e matches Error::OsError(msg) && msg@ == m@),
    {
        match native {
            Ok(()) => {
                self.icon = icon;
                Ok(())
            },
            Err(m) => Err(Error::OsError(m)),
        }
    }

    /// Replaces (or clears) the tray menu: the old menu's message handling
    /// is detached from the hidden window, the new menu's attached, and
    /// the mirror updated.
    pub fn set_menu(&mut self, menu: Option<MenuHandle>) -> (cmds: Vec<WinCommand>)
        ensures
            final(self)@ == (WinTrayView { menu, ..old(self)@ }),
            win_cmd_views(cmds@) == (match old(self)@.menu {
                Some(m) => seq![WinCommandView::DetachMenu { menu: m }],
                None => Seq::<WinCommandView>::empty(),
            }) + (match menu {
                Some(m) => seq![WinCommandView::AttachMenu { menu: m }],
                None => Seq::<WinCommandView>::empty(),
            }),
    {
        let mut cmds: Vec<WinCommand> = Vec::new();
        match &self.menu {
            Some(m) => cmds.push(WinCommand::DetachMenu { menu: *m }),
            None => (),
        }
        match &menu {
            Some(m) => cmds.push(WinCommand::AttachMenu { menu: *m }),
            None => (),
        }
        self.menu = menu;
        cmds
    }

    /// First half of a tooltip change: the shell-modify command carrying
    /// the new 128-unit tooltip buffer. The mirror is untouched until the
    /// host reports the shell's answer to
    /// [`WinTrayIcon::complete_set_tooltip`], so the mirror takes a new
    /// attribute only after the corresponding native call succeeded.
    pub fn set_tooltip(&self, tooltip: Option<&str>) -> (cmds: Vec<WinCommand>)
        ensures
            win_cmd_views(cmds@) == seq![
                WinCommandView::ModifyTooltip {
                    internal_id: self@.internal_id,
                    sz_tip: sz_tip_spec(
                        match tooltip {
                            Some(t) => Some(t@),
                            None => None,
                        },
                    ),
                },
            ],
    {
        let buffer = tooltip_buffer(tooltip);
        let mut cmds: Vec<WinCommand> = Vec::new();
        cmds.push(WinCommand::ModifyTooltip { internal_id: self.internal_id, sz_tip: buffer });
        cmds
    }

    /// Second half of a tooltip change: the host reports the shell's
    /// answer to the modify command. On success the mirror takes the new
    /// tooltip; on failure the mirror is left unchanged and the native
    /// error is surfaced as `OsError`, exactly as the platform reported
    /// it.
    pub fn complete_set_tooltip(&mut self, tooltip: Option<&str>, native: Result<(), String>) -> (r:
        Result<(), Error>)
        ensures
            native is Ok ==> final(self)@ == (WinTrayView {
                tooltip: match tooltip {
                    Some(t) => Some(t@),
                    None => None,
                },
                ..old(self)@
            }) && r is Ok,
            native matches Err(m) ==> final(self)@ == old(self)@ && (r matches Err(e)
                && e matches Error::OsError(msg) && msg@ == m@),
    {
        match native {
            Ok(()) => {
                self.tooltip = match tooltip {
                    Some(t) => Some(t.to_owned()),
                    None => None,
                };
                Ok(())
            },
            Err(m) => Err(Error::OsError(m)),
        }
    }

    /// Titles are unsupported on this platform: the call changes nothing.
    pub fn set_title(&mut self, title: Option<&str>) -> (cmds: Vec<WinCommand>)
        ensures
            final(self)@ == old(self)@,
            cmds@.len() == 0,
    {
        let _ = title;
        Vec::new()
    }

    /// Shows or hides the icon by registering it with, or removing it
    /// from, the shell. The mirrored attributes are kept either way, so
    /// hiding and showing again restores the same icon, menu and tooltip.
    pub fn set_visible(&mut self, visible: bool) -> (cmds: Vec<WinCommand>)
        ensures
            final(self)@ == win_set_visible_state(old(self)@, visible),
            win_cmd_views(cmds@) == (if visible {
                register_cmd_views(old(self)@.icon, old(self)@.tooltip, old(self)@.internal_id)
            } else {
                seq![WinCommandView::DeleteIcon { internal_id: old(self)@.internal_id }]
            }),
    {
        let mut cmds: Vec<WinCommand> = Vec::new();
        if visible {
            push_register_commands(&self.icon, &self.tooltip, self.internal_id, &mut cmds);
        } else {
            cmds.push(WinCommand::DeleteIcon { internal_id: self.internal_id });
        }
        self.registered = visible;
        cmds
    }

    /// Converts the host's icon-rectangle query result into the shared
    /// coordinate convention. `None` when the query failed.
    pub fn rect(&self, bounds: Option<(i32, i32, i32, i32)>) -> (r: Option<Rect>)
        ensures
            r == (match bounds {
                Some((l, t, rr, b)) => Some(crate::geometry::spec_rect_from_bounds(l, t, rr, b)),
                None => None::<Rect>,
            }),
    {
        match bounds {
            Some((l, t, rr, b)) => Some(Rect::from_bounds(l, t, rr, b)),
            None => None,
        }
    }

    /// The mirrored icon.
    pub fn icon(&self) -> (r: Option<Icon>)
        ensures
            (match r {
                Some(i) => Some(i@),
                None => None,
            }) == self@.icon,
    {
        match &self.icon {
            Some(i) => Some(i.clone()),
            None => None,
        }
    }

    /// The mirrored tooltip.
    pub fn tooltip(&self) -> (r: Option<String>)
        ensures
            (match r {
                Some(t) => Some(t@),
                None => None,
            }) == self@.tooltip,
    {
        match &self.tooltip {
            Some(t) => Some(t.clone()),
            None => None,
        }
    }

    /// The mirrored menu.
    pub fn menu(&self) -> (r: Option<MenuHandle>)
        ensures
            r == self@.menu,
    {
        self.menu
    }

    /// Whether the icon is currently registered with the shell.
    pub fn visible(&self) -> (r: bool)
        ensures
            r == self@.registered,
    {
        self.registered
    }

    /// Releases the native resources: the icon is removed from the shell,
    /// the menu detached, and the hidden window destroyed.
    pub fn take_down(&mut self) -> (cmds: Vec<WinCommand>)
        ensures
            final(self)@ == (WinTrayView { registered: false, ..old(self)@ }),
            win_cmd_views(cmds@) == seq![
                WinCommandView::DeleteIcon { internal_id: old(self)@.internal_id },
            ] + (match old(self)@.menu {
                Some(m) => seq![WinCommandView::DetachMenu { menu: m }],
                None => Seq::<WinCommandView>::empty(),
            }) + seq![WinCommandView::DestroyWindow],
    {
        let mut cmds: Vec<WinCommand> = Vec::new();
        cmds.push(WinCommand::DeleteIcon { internal_id: self.internal_id });
        match &self.menu {
            Some(m) => cmds.push(WinCommand::DetachMenu { menu: *m }),
            None => (),
        }
        cmds.push(WinCommand::DestroyWindow);
        self.registered = false;
        cmds
    }
}

/// One input to the Windows driver's hover machine: a raw mouse
/// notification or a Leave-polling timer tick.
#[verifier::ext_equal]
pub ghost enum WinInput {
    Message { msg: MouseMsg, cursor: PhysicalPosition, rect: Rect },
    Timer { cursor: Option<PhysicalPosition>, rect: Option<Rect> },
}

/// The successor state and the emitted event for one input.
pub open spec fn win_input_next(s: WinTrayView, input: WinInput) -> (
    WinTrayView,
    Option<TrayIconEventView>,
) {
    match input {
        WinInput::Message { msg, cursor, rect } => {
            let st = win_step(s, msg, cursor, rect);
            (st.state, st.event)
        },
        WinInput::Timer { cursor, rect } => {
            let st = win_timer_step(s, cursor, rect);
            (st.state, st.event)
        },
    }
}

/// The state after the first `t` inputs of a run.
pub open spec fn win_state_at(s: WinTrayView, inputs: Seq<WinInput>, t: int) -> WinTrayView
    decreases t,
{
    if t <= 0 {
        s
    } else {
        win_input_next(win_state_at(s, inputs, t - 1), inputs[t - 1]).0
    }
}

/// The event emitted by input `t` of a run (`None` where it emits
/// nothing).
pub open spec fn win_out(s: WinTrayView, inputs: Seq<WinInput>, t: int) -> Option<
    TrayIconEventView,
> {
    win_input_next(win_state_at(s, inputs, t), inputs[t]).1
}

/// How one step moves the hover flag: Enter is emitted only while not
/// hovering and records the hover; Leave ends it; every other outcome
/// leaves the flag alone.
pub proof fn lemma_step_entered(s: WinTrayView, input: WinInput)
    ensures
        ({
            let (s2, e) = win_input_next(s, input);
            &&& (e matches Some(ev) && ev is Enter) ==> (!s.entered && s2.entered)
            &&& (e matches Some(ev) && ev is Leave) ==> !s2.entered
            &&& !(e matches Some(ev) && (ev is Enter || ev is Leave)) ==> s2.entered == s.entered
        }),
{
}

/// While no Leave is emitted, the hover flag stays set.
proof fn lemma_entered_stays(s: WinTrayView, inputs: Seq<WinInput>, i: int, j: int)
    requires
        0 <= i <= j <= inputs.len(),
        win_state_at(s, inputs, i).entered,
        forall|k: int|
            i <= k < j ==> !((#[trigger] win_out(s, inputs, k)) matches Some(ev) && ev is Leave),
    ensures
        win_state_at(s, inputs, j).entered,
    decreases j - i,
{
    if i < j {
        lemma_step_entered(win_state_at(s, inputs, i), inputs[i]);
        assert(!(win_out(s, inputs, i) matches Some(ev) && ev is Leave));
        assert(win_state_at(s, inputs, i + 1).entered);
        lemma_entered_stays(s, inputs, i + 1, j);
    }
}

/// The hover-state invariant: in any run of the Windows driver, an Enter
/// event is never emitted twice without an intervening Leave. Between any
/// two inputs that emit Enter there is one that emits Leave.
pub proof fn lemma_no_enter_without_leave(s: WinTrayView, inputs: Seq<WinInput>, i: int, j: int)
    requires
        0 <= i < j < inputs.len(),
        win_out(s, inputs, i) matches Some(ev) && ev is Enter,
        win_out(s, inputs, j) matches Some(ev2) && ev2 is Enter,
    ensures
        exists|k: int|
            i < k < j && ((#[trigger] win_out(s, inputs, k)) matches Some(ev3) && ev3 is Leave),
{
    if forall|k: int|
        i < k < j ==> !((#[trigger] win_out(s, inputs, k)) matches Some(ev3) && ev3 is Leave) {
        lemma_step_entered(win_state_at(s, inputs, i), inputs[i]);
        assert(win_state_at(s, inputs, i + 1).entered);
        lemma_entered_stays(s, inputs, i + 1, j);
        lemma_step_entered(win_state_at(s, inputs, j), inputs[j]);
        assert(false);
    }
}

/// No step changes the driver's id.
proof fn lemma_state_id_const(s: WinTrayView, inputs: Seq<WinInput>, t: int)
    requires
        t >= 0,
    ensures
        win_state_at(s, inputs, t).id == s.id,
    decreases t,
{
    if t > 0 {
        lemma_state_id_const(s, inputs, t - 1);
    }
}

/// Every event a run emits carries the emitting driver's id: the
/// hover-state invariant above therefore holds per icon id.
pub proof fn lemma_events_carry_id(s: WinTrayView, inputs: Seq<WinInput>, t: int)
    requires
        0 <= t < inputs.len(),
    ensures
        win_out(s, inputs, t) matches Some(ev) ==> crate::event::spec_event_view_id(ev) == s.id,
{
    lemma_state_id_const(s, inputs, t);
}

/// A move notification at the already-recorded position emits nothing and
/// leaves the state unchanged.
pub proof fn lemma_redundant_move_suppressed(s: WinTrayView, p: PhysicalPosition, rect: Rect)
    requires
        s.entered,
        s.last_position == Some(p),
    ensures
        win_step(s, MouseMsg::MouseMove, p, rect).event is None,
        win_step(s, MouseMsg::MouseMove, p, rect).state == s,
{
    assert(win_step(s, MouseMsg::MouseMove, p, rect).state =~= s);
}

/// Whether every one of the inputs is a raw move notification at `p`.
pub open spec fn all_moves_at(inputs: Seq<WinInput>, p: PhysicalPosition) -> bool {
    forall|t: int|
        0 <= t < inputs.len() ==> ((#[trigger] inputs[t]) matches WinInput::Message {
            msg: MouseMsg::MouseMove,
            cursor,
            ..
        } && cursor == p)
}

/// Once the hover state records `p`, a run of move notifications at `p`
/// leaves the state fixed.
proof fn lemma_move_state_fixed(
    s: WinTrayView,
    inputs: Seq<WinInput>,
    p: PhysicalPosition,
    i: int,
    t: int,
)
    requires
        all_moves_at(inputs, p),
        0 <= i <= t <= inputs.len(),
        win_state_at(s, inputs, i).entered,
        win_state_at(s, inputs, i).last_position == Some(p),
    ensures
        win_state_at(s, inputs, t) == win_state_at(s, inputs, i),
    decreases t - i,
{
    if i < t {
        lemma_redundant_move_suppressed(win_state_at(s, inputs, i), p, inputs[i]->Message_rect);
        assert(win_state_at(s, inputs, i + 1) == win_state_at(s, inputs, i));
        lemma_move_state_fixed(s, inputs, p, i + 1, t);
    }
}

/// De-duplication, saturated case: when the hover state already records
/// `p`, a burst of native move notifications at `p` emits no event at
/// all.
pub proof fn lemma_move_burst_suppressed(
    s: WinTrayView,
    inputs: Seq<WinInput>,
    p: PhysicalPosition,
)
    requires
        all_moves_at(inputs, p),
        s.entered,
        s.last_position == Some(p),
    ensures
        forall|t: int| 0 <= t < inputs.len() ==> #[trigger] win_out(s, inputs, t) is None,
{
    assert forall|t: int| 0 <= t < inputs.len() implies #[trigger] win_out(s, inputs, t) is None by {
        lemma_move_state_fixed(s, inputs, p, 0, t);
        lemma_redundant_move_suppressed(s, p, inputs[t]->Message_rect);
    }
}

/// De-duplication: while hovering, a burst of native move notifications at
/// a coordinate other than the recorded one emits exactly one Move event,
/// on the first notification; every later one is suppressed.
pub proof fn lemma_move_burst_once(s: WinTrayView, inputs: Seq<WinInput>, p: PhysicalPosition)
    requires
        all_moves_at(inputs, p),
        inputs.len() >= 1,
        s.entered,
        s.last_position != Some(p),
    ensures
        win_out(s, inputs, 0) matches Some(ev) && ev == (TrayIconEventView::Move {
            id: s.id,
            position: p,
            rect: inputs[0]->Message_rect,
        }),
        forall|t: int| 1 <= t < inputs.len() ==> #[trigger] win_out(s, inputs, t) is None,
{
    assert forall|t: int| 1 <= t < inputs.len() implies #[trigger] win_out(s, inputs, t) is None by {
        assert(win_state_at(s, inputs, 1).entered && win_state_at(s, inputs, 1).last_position
            == Some(p));
        lemma_move_state_fixed(s, inputs, p, 1, t);
        lemma_redundant_move_suppressed(win_state_at(s, inputs, 1), p, inputs[t]->Message_rect);
    }
}

/// De-duplication, fresh case: while not hovering (and with no stale
/// recorded position at `p`), a burst of native move notifications at `p`
/// emits exactly one Enter and one Move, on the first two notifications;
/// every later one is suppressed.
pub proof fn lemma_move_burst_fresh(s: WinTrayView, inputs: Seq<WinInput>, p: PhysicalPosition)
    requires
        all_moves_at(inputs, p),
        inputs.len() >= 2,
        !s.entered,
        s.last_position != Some(p),
    ensures
        win_out(s, inputs, 0) matches Some(ev) && ev == (TrayIconEventView::Enter {
            id: s.id,
            position: p,
            rect: inputs[0]->Message_rect,
        }),
        win_out(s, inputs, 1) matches Some(ev) && ev == (TrayIconEventView::Move {
            id: s.id,
            position: p,
            rect: inputs[1]->Message_rect,
        }),
        forall|t: int| 2 <= t < inputs.len() ==> #[trigger] win_out(s, inputs, t) is None,
{
    assert(win_state_at(s, inputs, 1) == (WinTrayView { entered: true, ..s }));
    assert(win_state_at(s, inputs, 2) == (WinTrayView {
        entered: true,
        last_position: Some(p),
        ..s
    }));
    assert forall|t: int| 2 <= t < inputs.len() implies #[trigger] win_out(s, inputs, t) is None by {
        lemma_move_state_fixed(s, inputs, p, 2, t);
        lemma_redundant_move_suppressed(win_state_at(s, inputs, 2), p, inputs[t]->Message_rect);
    }
}

/// Appends the native-bitmap command for the given icon.
fn push_bitmap_command(icon: &Icon, cmds: &mut Vec<WinCommand>)
    ensures
        win_cmd_views(final(cmds)@) == win_cmd_views(old(cmds)@) + seq![
            WinCommandView::CreateNativeBitmap {
                width: icon@.width,
                height: icon@.height,
                bgra: bgra_of(icon@.rgba),
                and_mask: and_mask_of(icon@.rgba),
            },
        ],
{
    proof {
        use_type_invariant(icon);
        vstd::arithmetic::div_mod::lemma_mod_multiples_basic(
            (icon@.width * icon@.height) as int,
            4,
        );
    }
    let (width, height) = icon.get_size();
    let (bgra, and_mask) = rgba_to_bgra_and_mask(icon.rgba());
    cmds.push(WinCommand::CreateNativeBitmap { width, height, bgra, and_mask });
    proof {
        assert(win_cmd_views(cmds@) =~= win_cmd_views(old(cmds)@) + seq![
            WinCommandView::CreateNativeBitmap {
                width: icon@.width,
                height: icon@.height,
                bgra: bgra_of(icon@.rgba),
                and_mask: and_mask_of(icon@.rgba),
            },
        ]);
    }
}

/// Appends the commands that register the icon with the shell.
fn push_register_commands(
    icon: &Option<Icon>,
    tooltip: &Option<String>,
    internal_id: u32,
    cmds: &mut Vec<WinCommand>,
)
    ensures
        win_cmd_views(final(cmds)@) == win_cmd_views(old(cmds)@) + register_cmd_views(
            match icon {
                Some(i) => Some(i@),
                None => None,
            },
            match tooltip {
                Some(t) => Some(t@),
                None => None,
            },
            internal_id,
        ),
{
    match icon {
        Some(i) => push_bitmap_command(i, cmds),
        None => (),
    }
    let ghost mid: Seq<WinCommandView> = win_cmd_views(cmds@);
    let flags = notify_icon_flags(icon.is_some(), tooltip.is_some());
    let tip: Option<&str> = match tooltip {
        Some(t) => Some(t.as_str()),
        None => None,
    };
    let buffer = tooltip_buffer(tip);
    cmds.push(WinCommand::AddIcon { internal_id, flags, sz_tip: buffer });
    proof {
        assert(win_cmd_views(cmds@) =~= mid + seq![
            WinCommandView::AddIcon {
                internal_id,
                flags: notify_flags_spec(icon is Some, tooltip is Some),
                sz_tip: sz_tip_spec(
                    match tooltip {
                        Some(t) => Some(t@),
                        None => None,
                    },
                ),
            },
        ]);
        assert(win_cmd_views(cmds@) =~= win_cmd_views(old(cmds)@) + register_cmd_views(
            match icon {
                Some(i) => Some(i@),
                None => None,
            },
            match tooltip {
                Some(t) => Some(t@),
                None => None,
            },
            internal_id,
        ));
    }
}

} // verus!
