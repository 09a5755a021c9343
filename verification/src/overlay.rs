//! Overlay window state: the state all windows share and the two plain
//! windows (a corner text and the debug window), with their input rules.
//! Drawing itself is the embedder's concern; the decisions about visibility
//! and input live here.

use vstd::prelude::*;
use crate::input;

verus! {

/// State every overlay window can read and update.
pub struct SharedState {
    /// The overlay holds input focus.
    pub is_overlay_focused: bool,
    /// A survey form is currently open and modal.
    pub surver_is_opened: bool,
    /// How many times the overlay has been focused.
    pub open_counter: u64,
}

impl SharedState {
    /// The state before any window ran.
    pub fn new() -> (s: SharedState)
        ensures
            s == (SharedState {
                is_overlay_focused: false,
                surver_is_opened: false,
                open_counter: 0,
            }),
    {
        SharedState { is_overlay_focused: false, surver_is_opened: false, open_counter: 0 }
    }
}

/// The always-on corner text naming the overlay.
pub struct OverlayText {
    /// Kept for symmetry with toggleable windows; the text is always shown.
    pub visible: bool,
}

impl OverlayText {
    /// A fresh, visible overlay text.
    pub fn new() -> (w: OverlayText)
        ensures
            w.visible,
    {
        OverlayText { visible: true }
    }

    /// The window's title.
    pub fn name(&self) -> (r: &'static str)
        ensures
            r@ == "Overlay Text"@,
    {
        "Overlay Text"
    }

    /// The overlay text is always open.
    pub fn is_open(&self) -> (r: bool)
        ensures
            r,
    {
        true
    }
}

/// The debug window: closable, and drawable on demand while unfocused.
pub struct DebugWindow {
    /// The user closed the window.
    pub is_closed: bool,
    /// Draw even while the overlay is unfocused.
    pub force_draw: bool,
}

impl DebugWindow {
    /// A fresh, open debug window without forced drawing.
    pub fn new() -> (w: DebugWindow)
        ensures
            w == (DebugWindow { is_closed: false, force_draw: false }),
    {
        DebugWindow { is_closed: false, force_draw: false }
    }

    /// The window's title.
    pub fn name(&self) -> (r: &'static str)
        ensures
            r@ == "Debug Window"@,
    {
        "Debug Window"
    }

    /// Shows or hides the window.
    pub fn toggle(&mut self)
        ensures
            *final(self) == (DebugWindow { is_closed: !old(self).is_closed, ..*old(self) }),
    {
        self.is_closed = !self.is_closed;
    }

    /// Whether the window is open.
    pub fn is_open(&self) -> (r: bool)
        ensures
            r == !self.is_closed,
    {
        !self.is_closed
    }

    /// The window draws while the overlay is focused, or always once forced.
    pub fn is_should_render(&self, shared_state: &SharedState) -> (r: bool)
        ensures
            r == (shared_state.is_overlay_focused || self.force_draw),
    {
        shared_state.is_overlay_focused || self.force_draw
    }

    /// Raw input: releasing the forced-draw key toggles forced drawing; the
    /// message always passes on to the host.
    pub fn on_raw_input(&mut self, umsg: u32, wparam: u16) -> (pass: bool)
        ensures
            pass,
            final(self).force_draw == (if umsg == input::WM_KEYUP && wparam == input::VK_Q {
                !old(self).force_draw
            } else {
                old(self).force_draw
            }),
            final(self).is_closed == old(self).is_closed,
    {
        if umsg == input::WM_KEYUP && wparam == input::VK_Q {
            self.force_draw = !self.force_draw;
        }
        true
    }
}

} // verus!
