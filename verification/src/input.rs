//! Input routing: which window messages the overlay consumes and which pass
//! through to the host, and when the overlay grabs or releases the cursor.
//!
//! The message and key codes are contract values of the host's window system.
//! The embedder feeds every message of the hooked window procedure through
//! [`UiInputState::on_input`] and performs the input-context calls the
//! returned routing prescribes.

use vstd::prelude::*;

verus! {

pub const WM_INPUT: u32 = 0x00FF;

pub const WM_KEYDOWN: u32 = 0x0100;

pub const WM_KEYUP: u32 = 0x0101;

pub const WM_CHAR: u32 = 0x0102;

pub const WM_SYSKEYDOWN: u32 = 0x0104;

pub const WM_SYSKEYUP: u32 = 0x0105;

pub const WM_MOUSEMOVE: u32 = 0x0200;

pub const WM_LBUTTONDOWN: u32 = 0x0201;

pub const WM_LBUTTONUP: u32 = 0x0202;

pub const WM_LBUTTONDBLCLK: u32 = 0x0203;

pub const WM_RBUTTONDOWN: u32 = 0x0204;

pub const WM_RBUTTONUP: u32 = 0x0205;

pub const WM_RBUTTONDBLCLK: u32 = 0x0206;

pub const WM_MBUTTONDOWN: u32 = 0x0207;

pub const WM_MBUTTONUP: u32 = 0x0208;

pub const WM_MBUTTONDBLCLK: u32 = 0x0209;

pub const WM_MOUSEWHEEL: u32 = 0x020A;

pub const WM_XBUTTONDBLCLK: u32 = 0x020D;

/// The message a window receives when it loses mouse capture; the hooked
/// window procedure forwards it to the original untouched.
pub const WM_CAPTURECHANGED: u32 = 0x0215;

/// The key that toggles overlay focus.
pub const VK_F3: u16 = 0x72;

/// The key that toggles the debug window's forced drawing.
pub const VK_Q: u16 = 0x51;

/// A keyboard message.
pub open spec fn spec_is_keyboard_message(umsg: u32) -> bool {
    umsg == WM_KEYDOWN || umsg == WM_KEYUP || umsg == WM_SYSKEYDOWN || umsg == WM_SYSKEYUP || umsg
        == WM_CHAR
}

/// A mouse or raw-input message.
pub open spec fn spec_is_mouse_message(umsg: u32) -> bool {
    ||| umsg == WM_MOUSEMOVE
    ||| umsg == WM_LBUTTONDOWN
    ||| umsg == WM_LBUTTONUP
    ||| umsg == WM_RBUTTONDOWN
    ||| umsg == WM_RBUTTONUP
    ||| umsg == WM_LBUTTONDBLCLK
    ||| umsg == WM_RBUTTONDBLCLK
    ||| umsg == WM_MBUTTONDBLCLK
    ||| umsg == WM_XBUTTONDBLCLK
    ||| umsg == WM_MBUTTONDOWN
    ||| umsg == WM_MBUTTONUP
    ||| umsg == WM_MOUSEWHEEL
    ||| umsg == WM_INPUT
}

/// The message/key pair that toggles overlay focus.
pub open spec fn spec_is_focus_toggle(umsg: u32, wparam: u16) -> bool {
    (umsg == WM_KEYUP || umsg == WM_SYSKEYDOWN) && wparam == VK_F3
}

/// A keyboard message.
pub fn is_keyboard_message(umsg: u32) -> (r: bool)
    ensures
        r == spec_is_keyboard_message(umsg),
{
    umsg == WM_KEYDOWN || umsg == WM_KEYUP || umsg == WM_SYSKEYDOWN || umsg == WM_SYSKEYUP || umsg
        == WM_CHAR
}

/// A mouse or raw-input message.
pub fn is_mouse_message(umsg: u32) -> (r: bool)
    ensures
        r == spec_is_mouse_message(umsg),
{
    umsg == WM_MOUSEMOVE || umsg == WM_LBUTTONDOWN || umsg == WM_LBUTTONUP || umsg == WM_RBUTTONDOWN
        || umsg == WM_RBUTTONUP || umsg == WM_LBUTTONDBLCLK || umsg == WM_RBUTTONDBLCLK || umsg
        == WM_MBUTTONDBLCLK || umsg == WM_XBUTTONDBLCLK || umsg == WM_MBUTTONDOWN || umsg
        == WM_MBUTTONUP || umsg == WM_MOUSEWHEEL || umsg == WM_INPUT
}

/// What the embedder must do to the host's input context after a message.
#[derive(Clone, Copy, Debug, PartialEq, Eq, Structural)]
pub enum CursorAction {
    /// Leave the input context alone.
    Unchanged,
    /// Enable the overlay's input context, hide the host cursor and capture
    /// the mouse.
    GrabInput,
    /// Disable the overlay's input context, returning input to the host.
    ReleaseInput,
}

/// The routing decision for one window message.
pub struct InputRouting {
    /// Hand the message on to the host, rather than consume it.
    pub pass_to_game: bool,
    /// Push a fresh input context before acting on `cursor`; needed once per
    /// overlay lifetime.
    pub push_context: bool,
    /// How to change the host's input context.
    pub cursor: CursorAction,
}

/// The overlay's input-focus state.
pub struct UiInputState {
    /// The user toggled the overlay into focus.
    pub is_focused: bool,
    /// The overlay currently holds the cursor.
    pub cursor_in_gui: bool,
    /// The UI layer wants keyboard input this frame.
    pub egui_wants_keyboard: bool,
    /// The UI layer wants pointer input this frame.
    pub egui_wants_pointer: bool,
    /// An input context has been pushed on the host's input stack.
    pub context_pushed: bool,
}

/// Whether a message stays with the overlay instead of the host: anything a
/// window consumed, mouse input while the overlay demands the cursor, and
/// keyboard input while the overlay is focused or the UI layer wants both the
/// keyboard and the pointer.
pub open spec fn spec_pass_to_game(
    umsg: u32,
    focused: bool,
    egui_wants_keyboard: bool,
    egui_wants_pointer: bool,
    windows_consumed: bool,
) -> bool {
    &&& !windows_consumed
    &&& !(spec_is_mouse_message(umsg) && (focused || egui_wants_pointer))
    &&& !(spec_is_keyboard_message(umsg) && ((egui_wants_keyboard && egui_wants_pointer)
        || focused))
}

impl UiInputState {
    /// The state before any input arrived: unfocused, cursor with the host.
    pub fn new() -> (s: UiInputState)
        ensures
            s == (UiInputState {
                is_focused: false,
                cursor_in_gui: false,
                egui_wants_keyboard: false,
                egui_wants_pointer: false,
                context_pushed: false,
            }),
    {
        UiInputState {
            is_focused: false,
            cursor_in_gui: false,
            egui_wants_keyboard: false,
            egui_wants_pointer: false,
            context_pushed: false,
        }
    }

    /// Records what the UI layer asked for after drawing a frame.
    pub fn set_egui_wants(&mut self, keyboard: bool, pointer: bool)
        ensures
            *final(self) == (UiInputState {
                egui_wants_keyboard: keyboard,
                egui_wants_pointer: pointer,
                ..*old(self)
            }),
    {
        self.egui_wants_keyboard = keyboard;
        self.egui_wants_pointer = pointer;
    }

    /// Routes one window message: toggles focus on the focus key, decides
    /// whether the overlay's cursor demand changed and what to do about the
    /// input context, and whether the message passes through to the host.
    /// `windows_consumed` reports whether any overlay window consumed the
    /// message when it was offered to them.
    pub fn on_input(&mut self, umsg: u32, wparam: u16, windows_consumed: bool) -> (r: InputRouting)
        ensures
            final(self).is_focused == (if spec_is_focus_toggle(umsg, wparam) {
                !old(self).is_focused
            } else {
                old(self).is_focused
            }),
            final(self).egui_wants_keyboard == old(self).egui_wants_keyboard,
            final(self).egui_wants_pointer == old(self).egui_wants_pointer,
            final(self).cursor_in_gui == (final(self).is_focused || old(self).egui_wants_pointer),
            final(self).context_pushed == (old(self).context_pushed || final(self).cursor_in_gui
                != old(self).cursor_in_gui),
            r.push_context == (final(self).cursor_in_gui != old(self).cursor_in_gui && !old(
                self,
            ).context_pushed),
            r.cursor == (if final(self).cursor_in_gui == old(self).cursor_in_gui {
                CursorAction::Unchanged
            } else if final(self).cursor_in_gui {
                CursorAction::GrabInput
            } else {
                CursorAction::ReleaseInput
            }),
            r.pass_to_game == spec_pass_to_game(
                umsg,
                final(self).is_focused,
                old(self).egui_wants_keyboard,
                old(self).egui_wants_pointer,
                windows_consumed,
            ),
    {
        if (umsg == WM_KEYUP || umsg == WM_SYSKEYDOWN) && wparam == VK_F3 {
            self.is_focused = !self.is_focused;
        }
        let ui_demands_cursor = self.is_focused || self.egui_wants_pointer;
        let mut push_context = false;
        let mut cursor = CursorAction::Unchanged;
        if ui_demands_cursor != self.cursor_in_gui {
            push_context = !self.context_pushed;
            self.context_pushed = true;
            cursor = if ui_demands_cursor {
                CursorAction::GrabInput
            } else {
                CursorAction::ReleaseInput
            };
            self.cursor_in_gui = ui_demands_cursor;
        }
        let mut pass_to_game = !windows_consumed;
        if is_mouse_message(umsg) && (self.is_focused || self.egui_wants_pointer) {
            pass_to_game = false;
        }
        if is_keyboard_message(umsg) && ((self.egui_wants_keyboard && self.egui_wants_pointer)
            || self.is_focused) {
            pass_to_game = false;
        }
        InputRouting { pass_to_game, push_context, cursor }
    }

    /// Toggles overlay focus directly (the proxy embedding binds this to its
    /// focus key): flips the focus flag and reports how to move the cursor,
    /// pushing an input context first if none exists yet.
    pub fn toggle_focus(&mut self) -> (r: InputRouting)
        ensures
            *final(self) == (UiInputState {
                is_focused: !old(self).is_focused,
                cursor_in_gui: !old(self).is_focused,
                context_pushed: true,
                ..*old(self)
            }),
            r.push_context == !old(self).context_pushed,
            r.cursor == (if final(self).is_focused {
                CursorAction::GrabInput
            } else {
                CursorAction::ReleaseInput
            }),
            !r.pass_to_game,
    {
        self.is_focused = !self.is_focused;
        let push_context = !self.context_pushed;
        self.context_pushed = true;
        self.cursor_in_gui = self.is_focused;
        let cursor = if self.is_focused {
            CursorAction::GrabInput
        } else {
            CursorAction::ReleaseInput
        };
        InputRouting { pass_to_game: false, push_context, cursor }
    }
}

} // verus!
