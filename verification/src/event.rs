//! The unified, cross-platform tray event model.

use vstd::prelude::*;

use crate::geometry::{PhysicalPosition, Rect};
use crate::tray_icon_id::TrayIconId;

verus! {

/// Describes the mouse button state.
#[derive(Clone, Copy, Debug, PartialEq, Eq, Structural)]
pub enum MouseButtonState {
    Up,
    Down,
}

impl Default for MouseButtonState {
    fn default() -> (r: Self)
        ensures
            r is Up,
    {
        MouseButtonState::Up
    }
}

/// Describes which mouse button triggered the event.
#[derive(Clone, Copy, Debug, PartialEq, Eq, Structural)]
pub enum MouseButton {
    Left,
    Right,
    Middle,
}

impl Default for MouseButton {
    fn default() -> (r: Self)
        ensures
            r is Left,
    {
        MouseButton::Left
    }
}

/// Describes a tray icon event: a click or hover notification normalized
/// from the platform's native input, carrying the emitting icon's id, the
/// cursor position and the icon's bounding rectangle in physical pixels.
#[derive(Clone, Debug, PartialEq)]
pub enum TrayIconEvent {
    /// A mouse button was pressed or released on the tray icon.
    Click {
        id: TrayIconId,
        position: PhysicalPosition,
        rect: Rect,
        button: MouseButton,
        button_state: MouseButtonState,
    },
    /// A mouse button was double-clicked on the tray icon.
    DoubleClick { id: TrayIconId, position: PhysicalPosition, rect: Rect, button: MouseButton },
    /// The mouse entered the tray icon region.
    Enter { id: TrayIconId, position: PhysicalPosition, rect: Rect },
    /// The mouse moved over the tray icon region.
    Move { id: TrayIconId, position: PhysicalPosition, rect: Rect },
    /// The mouse left the tray icon region.
    Leave { id: TrayIconId, position: PhysicalPosition, rect: Rect },
}

/// The mathematical content of a tray icon event.
#[verifier::ext_equal]
pub ghost enum TrayIconEventView {
    Click {
        id: Seq<char>,
        position: PhysicalPosition,
        rect: Rect,
        button: MouseButton,
        button_state: MouseButtonState,
    },
    DoubleClick { id: Seq<char>, position: PhysicalPosition, rect: Rect, button: MouseButton },
    Enter { id: Seq<char>, position: PhysicalPosition, rect: Rect },
    Move { id: Seq<char>, position: PhysicalPosition, rect: Rect },
    Leave { id: Seq<char>, position: PhysicalPosition, rect: Rect },
}

impl View for TrayIconEvent {
    type V = TrayIconEventView;

    open spec fn view(&self) -> TrayIconEventView {
        match self {
            TrayIconEvent::Click { id, position, rect, button, button_state } => {
                TrayIconEventView::Click {
                    id: id@,
                    position: *position,
                    rect: *rect,
                    button: *button,
                    button_state: *button_state,
                }
            },
            TrayIconEvent::DoubleClick { id, position, rect, button } => {
                TrayIconEventView::DoubleClick {
                    id: id@,
                    position: *position,
                    rect: *rect,
                    button: *button,
                }
            },
            TrayIconEvent::Enter { id, position, rect } => TrayIconEventView::Enter {
                id: id@,
                position: *position,
                rect: *rect,
            },
            TrayIconEvent::Move { id, position, rect } => TrayIconEventView::Move {
                id: id@,
                position: *position,
                rect: *rect,
            },
            TrayIconEvent::Leave { id, position, rect } => TrayIconEventView::Leave {
                id: id@,
                position: *position,
                rect: *rect,
            },
        }
    }
}

impl DeepView for TrayIconEvent {
    type V = TrayIconEventView;

    open spec fn deep_view(&self) -> TrayIconEventView {
        self.view()
    }
}

/// The id carried by an event view, whichever variant it is.
pub open spec fn spec_event_view_id(e: TrayIconEventView) -> Seq<char> {
    match e {
        TrayIconEventView::Click { id, .. } => id,
        TrayIconEventView::DoubleClick { id, .. } => id,
        TrayIconEventView::Enter { id, .. } => id,
        TrayIconEventView::Move { id, .. } => id,
        TrayIconEventView::Leave { id, .. } => id,
    }
}

/// The id carried by an event, whichever variant it is.
pub open spec fn spec_event_id(e: TrayIconEvent) -> TrayIconId {
    match e {
        TrayIconEvent::Click { id, .. } => id,
        TrayIconEvent::DoubleClick { id, .. } => id,
        TrayIconEvent::Enter { id, .. } => id,
        TrayIconEvent::Move { id, .. } => id,
        TrayIconEvent::Leave { id, .. } => id,
    }
}

impl TrayIconEvent {
    /// Returns the id of the tray icon which triggered this event.
    pub fn id(&self) -> (r: &TrayIconId)
        ensures
            *r == spec_event_id(*self),
    {
        match self {
            TrayIconEvent::Click { id, .. } => id,
            TrayIconEvent::DoubleClick { id, .. } => id,
            TrayIconEvent::Enter { id, .. } => id,
            TrayIconEvent::Move { id, .. } => id,
            TrayIconEvent::Leave { id, .. } => id,
        }
    }
}

} // verus!
