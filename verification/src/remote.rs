//! Remote input of the console: whether keyboard and pointer go to the target,
//! the button mask, and which pointer reports are due. Window events arrive
//! as plain values; the functions say what to send and what changes.

use vstd::prelude::*;
use crate::config::MouseMode;
use crate::input::{
    elapsed, is_ctrl_alt_press, is_mode_toggle_combo, is_remote_exit_combo, modifier_changes,
    modifier_diff, no_modifiers, pointer_changed, throttle_elapsed, KeyAction, Modifiers, Nanos,
};
use crate::keymap::{keysym_of, physical_code_to_keysym, KeyCode};
use crate::sink::{sat_i8, saturating_add_i8};

verus! {

/// Least time between two absolute pointer reports of the same button state.
pub const POINTER_MIN_INTERVAL: Nanos = 33_000_000;

/// Mouse buttons as the window reports them.
#[derive(Clone, Copy, Debug, PartialEq, Eq, Structural)]
pub enum MouseButton {
    Left,
    Right,
    Middle,
    Back,
    Forward,
    Other(u16),
}

/// RFB button-mask bit of a button: primary 1, secondary 2, middle 4; the
/// others have none.
pub open spec fn button_bit_of(button: MouseButton) -> u8 {
    match button {
        MouseButton::Left => 1,
        MouseButton::Right => 2,
        MouseButton::Middle => 4,
        _ => 0,
    }
}

/// RFB button-mask bit of a button (see [`button_bit_of`]).
pub fn mouse_button_bit(button: MouseButton) -> (r: u8)
    ensures
        r == button_bit_of(button),
{
    match button {
        MouseButton::Left => 1,
        MouseButton::Right => 2,
        MouseButton::Middle => 4,
        _ => 0,
    }
}

/// The local cursor is hidden and confined exactly in relative mode during
/// remote input.
pub open spec fn cursor_grabbed(active: bool, mode: MouseMode) -> bool {
    active && mode == MouseMode::Relative
}

/// Whether the local cursor is to be hidden and confined (see
/// [`cursor_grabbed`]).
pub fn cursor_grab(active: bool, mode: MouseMode) -> (r: bool)
    ensures
        r == cursor_grabbed(active, mode),
{
    active && mode == MouseMode::Relative
}

/// The other mouse mode.
pub open spec fn other_mode(mode: MouseMode) -> MouseMode {
    match mode {
        MouseMode::Absolute => MouseMode::Relative,
        MouseMode::Relative => MouseMode::Absolute,
    }
}

/// The mode Ctrl+Alt+M switches to.
pub fn toggled_mode(mode: MouseMode) -> (r: MouseMode)
    ensures
        r == other_mode(mode),
{
    match mode {
        MouseMode::Absolute => MouseMode::Relative,
        MouseMode::Relative => MouseMode::Absolute,
    }
}

/// What a button press did to remote input.
#[derive(Clone, Copy, Debug, PartialEq, Eq, Structural)]
pub enum FocusChange {
    Entered,
    Left,
    Unchanged,
}

/// What to do with a key press.
#[derive(Clone, Copy, Debug, PartialEq, Eq, Structural)]
pub enum KeyPress {
    /// Not forwarded: remote input is off, or the press is an auto-repeat.
    Ignored,
    /// Ctrl+Alt+K: remote input ended.
    LeftRemote,
    /// Ctrl+Alt+M: switch the mouse mode.
    ToggleMode,
    /// The key has no keysym.
    Unsupported,
    /// Send this keysym down.
    Send(u32),
}

/// What a key press is, given whether remote input is on.
pub open spec fn key_press_of(active: bool, code: KeyCode, modifiers: Modifiers, repeat: bool) -> KeyPress {
    if !active {
        KeyPress::Ignored
    } else if is_ctrl_alt_press(code, modifiers, repeat, KeyCode::KeyK) {
        KeyPress::LeftRemote
    } else if is_ctrl_alt_press(code, modifiers, repeat, KeyCode::KeyM) {
        KeyPress::ToggleMode
    } else if repeat {
        KeyPress::Ignored
    } else {
        match keysym_of(code) {
            Some(k) => KeyPress::Send(k),
            None => KeyPress::Unsupported,
        }
    }
}

/// A report to send in absolute mode: the pointer state, if one is due, and
/// wheel steps, if any accumulated.
#[derive(Clone, Copy, Debug, PartialEq, Eq)]
pub struct AbsoluteReport {
    pub pointer: Option<(u8, u16, u16)>,
    pub wheel: i8,
}

/// A relative report: button mask, motion and wheel steps.
#[derive(Clone, Copy, Debug, PartialEq, Eq, Structural)]
pub struct RelativeReport {
    pub mask: u8,
    pub dx: i16,
    pub dy: i16,
    pub wheel: i8,
}

/// An absolute report is due: the buttons changed since the last one sent,
/// or the minimum interval has passed; and the state differs from it.
pub open spec fn absolute_due(
    state: (u8, u16, u16),
    last_sent: Option<(u8, u16, u16)>,
    last_sent_at: Option<Nanos>,
    now: Nanos,
    interval: Nanos,
) -> bool {
    let mask_changed = last_sent matches Some(l) && l.0 != state.0;
    let waited = match last_sent_at {
        None => true,
        Some(t) => elapsed(now, t) >= interval,
    };
    (mask_changed || waited) && last_sent != Some(state)
}

/// Remote-input state of the console.
#[derive(Clone, Copy, Debug, PartialEq, Eq)]
pub struct RemoteInput {
    /// Keyboard and pointer go to the target.
    pub active: bool,
    pub pointer_mask: u8,
    pub last_pointer: Option<(u16, u16)>,
    pub last_relative_mask: u8,
    pub last_pointer_sent: Option<(u8, u16, u16)>,
    pub last_pointer_sent_at: Option<Nanos>,
    pub wheel: i8,
    pub last_modifiers: Modifiers,
}

impl RemoteInput {
    /// Remote input off, nothing held, nothing sent.
    pub fn new() -> (r: Self)
        ensures
            !r.active,
            r.pointer_mask == 0,
            r.last_pointer is None,
            r.last_relative_mask == 0,
            r.last_pointer_sent is None,
            r.last_pointer_sent_at is None,
            r.wheel == 0,
            r.last_modifiers == no_modifiers(),
    {
        RemoteInput {
            active: false,
            pointer_mask: 0,
            last_pointer: None,
            last_relative_mask: 0,
            last_pointer_sent: None,
            last_pointer_sent_at: None,
            wheel: 0,
            last_modifiers: Modifiers::empty(),
        }
    }

    /// Remote input ends (window unfocused, click outside the video). Held
    /// buttons and what was last sent are forgotten, so that the next click
    /// at the same place is sent again; the result says whether remote input
    /// was on, in which case every key and button on the target is released.
    pub fn leave(&mut self) -> (was_active: bool)
        ensures
            was_active == old(self).active,
            was_active ==> *final(self) == (RemoteInput {
                active: false,
                pointer_mask: 0,
                last_pointer: None,
                last_relative_mask: 0,
                last_pointer_sent: None,
                last_pointer_sent_at: None,
                ..*old(self)
            }),
            !was_active ==> *final(self) == *old(self),
    {
        if !self.active {
            return false;
        }
        self.active = false;
        self.pointer_mask = 0;
        self.last_pointer = None;
        self.last_relative_mask = 0;
        self.last_pointer_sent = None;
        self.last_pointer_sent_at = None;
        true
    }

    /// A button went down. Its bit joins the mask; a press inside the video
    /// starts remote input, a press outside ends it.
    pub fn button_pressed(&mut self, button: MouseButton, inside_video: bool) -> (r: FocusChange)
        ensures
            r == (if inside_video && !old(self).active {
                FocusChange::Entered
            } else if !inside_video && old(self).active {
                FocusChange::Left
            } else {
                FocusChange::Unchanged
            }),
            final(self).active == inside_video,
            r is Left ==> *final(self) == (RemoteInput {
                active: false,
                pointer_mask: 0,
                last_pointer: None,
                last_relative_mask: 0,
                last_pointer_sent: None,
                last_pointer_sent_at: None,
                ..*old(self)
            }),
            !(r is Left) ==> *final(self) == (RemoteInput {
                active: inside_video || old(self).active,
                pointer_mask: old(self).pointer_mask | button_bit_of(button),
                ..*old(self)
            }),
    {
        self.pointer_mask = self.pointer_mask | mouse_button_bit(button);
        if inside_video {
            if !self.active {
                self.active = true;
                return FocusChange::Entered;
            }
            FocusChange::Unchanged
        } else if self.active {
            self.leave();
            FocusChange::Left
        } else {
            FocusChange::Unchanged
        }
    }

    /// A button went up: its bit leaves the mask.
    pub fn button_released(&mut self, button: MouseButton)
        ensures
            *final(self) == (RemoteInput {
                pointer_mask: old(self).pointer_mask & !button_bit_of(button),
                ..*old(self)
            }),
    {
        self.pointer_mask = self.pointer_mask & !mouse_button_bit(button);
    }

    /// Wheel steps accumulate, saturating, while remote input is on.
    pub fn wheel_scrolled(&mut self, steps: i8)
        ensures
            old(self).active ==> *final(self) == (RemoteInput {
                wheel: sat_i8(old(self).wheel as int, steps as int),
                ..*old(self)
            }),
            !old(self).active ==> *final(self) == *old(self),
    {
        if self.active {
            self.wheel = saturating_add_i8(self.wheel, steps);
        }
    }

    /// A key went down (see [`key_press_of`]). Ctrl+Alt+K ends remote input
    /// and forgets the modifiers; nothing else changes the state.
    pub fn key_pressed(&mut self, code: KeyCode, modifiers: Modifiers, repeat: bool) -> (r: KeyPress)
        ensures
            r == key_press_of(old(self).active, code, modifiers, repeat),
            r is LeftRemote ==> *final(self) == (RemoteInput {
                active: false,
                last_modifiers: no_modifiers(),
                ..*old(self)
            }),
            !(r is LeftRemote) ==> *final(self) == *old(self),
    {
        if !self.active {
            return KeyPress::Ignored;
        }
        if is_remote_exit_combo(code, modifiers, repeat) {
            self.active = false;
            self.last_modifiers = Modifiers::empty();
            return KeyPress::LeftRemote;
        }
        if is_mode_toggle_combo(code, modifiers, repeat) {
            return KeyPress::ToggleMode;
        }
        if repeat {
            return KeyPress::Ignored;
        }
        match physical_code_to_keysym(code) {
            Some(k) => KeyPress::Send(k),
            None => KeyPress::Unsupported,
        }
    }

    /// The keysym to send up for a released key, while remote input is on.
    pub fn key_released(&self, code: KeyCode) -> (r: Option<u32>)
        ensures
            r == (if self.active {
                keysym_of(code)
            } else {
                None
            }),
    {
        if self.active {
            physical_code_to_keysym(code)
        } else {
            None
        }
    }

    /// The modifiers changed: while remote input is on, the key actions that
    /// bring the target along, and the new modifiers are remembered.
    pub fn modifiers_changed(&mut self, modifiers: Modifiers) -> (r: Vec<KeyAction>)
        ensures
            old(self).active ==> r@ == modifier_changes(old(self).last_modifiers, modifiers),
            old(self).active ==> *final(self) == (RemoteInput {
                last_modifiers: modifiers,
                ..*old(self)
            }),
            !old(self).active ==> r@.len() == 0 && *final(self) == *old(self),
    {
        if !self.active {
            return Vec::new();
        }
        let actions = modifier_diff(self.last_modifiers, modifiers);
        self.last_modifiers = modifiers;
        actions
    }

    /// The pointer is over frame position `(x, y)` at `now` in absolute mode.
    /// The position is remembered; the pointer state is reported when due
    /// (see [`absolute_due`]), and accumulated wheel steps are reported and
    /// cleared.
    pub fn absolute_report(&mut self, x: u16, y: u16, now: Nanos, interval: Nanos) -> (r:
        AbsoluteReport)
        ensures
            ({
                let state = (old(self).pointer_mask, x, y);
                if absolute_due(
                    state,
                    old(self).last_pointer_sent,
                    old(self).last_pointer_sent_at,
                    now,
                    interval,
                ) {
                    &&& r.pointer == Some(state)
                    &&& final(self).last_pointer_sent == Some(state)
                    &&& final(self).last_pointer_sent_at == Some(now)
                } else {
                    &&& r.pointer is None
                    &&& final(self).last_pointer_sent == old(self).last_pointer_sent
                    &&& final(self).last_pointer_sent_at == old(self).last_pointer_sent_at
                }
            }),
            r.wheel == old(self).wheel,
            final(self).wheel == 0,
            final(self).last_pointer == Some((x, y)),
            final(self).active == old(self).active,
            final(self).pointer_mask == old(self).pointer_mask,
            final(self).last_relative_mask == old(self).last_relative_mask,
            final(self).last_modifiers == old(self).last_modifiers,
    {
        self.last_pointer = Some((x, y));
        let mask = self.pointer_mask;
        let mask_changed = match self.last_pointer_sent {
            Some(last) => last.0 != mask,
            None => false,
        };
        let mut pointer: Option<(u8, u16, u16)> = None;
        if (mask_changed || throttle_elapsed(now, self.last_pointer_sent_at, interval))
            && pointer_changed((mask, x, y), self.last_pointer_sent) {
            pointer = Some((mask, x, y));
            self.last_pointer_sent = Some((mask, x, y));
            self.last_pointer_sent_at = Some(now);
        }
        let wheel = self.wheel;
        self.wheel = 0;
        AbsoluteReport { pointer, wheel }
    }

    /// A sampled relative motion `(dx, dy)`: a report is due when there is
    /// motion or wheel, or the buttons changed since the last relative
    /// report; the wheel is then cleared and the mask remembered.
    pub fn relative_report(&mut self, dx: i16, dy: i16) -> (r: Option<RelativeReport>)
        ensures
            ({
                let due = dx != 0 || dy != 0 || old(self).wheel != 0 || old(self).pointer_mask
                    != old(self).last_relative_mask;
                if due {
                    &&& r == Some(
                        RelativeReport {
                            mask: old(self).pointer_mask,
                            dx,
                            dy,
                            wheel: old(self).wheel,
                        },
                    )
                    &&& *final(self) == (RemoteInput {
                        wheel: 0,
                        last_relative_mask: old(self).pointer_mask,
                        ..*old(self)
                    })
                } else {
                    r is None && *final(self) == *old(self)
                }
            }),
    {
        let mask_changed = self.pointer_mask != self.last_relative_mask;
        if dx != 0 || dy != 0 || self.wheel != 0 || mask_changed {
            let report = RelativeReport { mask: self.pointer_mask, dx, dy, wheel: self.wheel };
            self.wheel = 0;
            self.last_relative_mask = self.pointer_mask;
            Some(report)
        } else {
            None
        }
    }

    /// The session ended: remote input is off and the last position and
    /// relative mask are forgotten.
    pub fn disconnected(&mut self)
        ensures
            *final(self) == (RemoteInput {
                active: false,
                last_pointer: None,
                last_relative_mask: 0,
                ..*old(self)
            }),
    {
        self.active = false;
        self.last_pointer = None;
        self.last_relative_mask = 0;
    }
}

/// Keyboard field of the status line.
#[derive(Clone, Copy, Debug, PartialEq, Eq, Structural)]
pub enum KeyboardStatus {
    Pasting,
    Remote,
    Ready,
}

/// Pointer field of the status line.
#[derive(Clone, Copy, Debug, PartialEq, Eq, Structural)]
pub enum PointerStatus {
    Relative,
    At(u16, u16),
    Ready,
}

/// The keyboard field: pasting first, then remote input, else ready.
pub fn keyboard_status(paste_busy: bool, remote: bool) -> (r: KeyboardStatus)
    ensures
        r == (if paste_busy {
            KeyboardStatus::Pasting
        } else if remote {
            KeyboardStatus::Remote
        } else {
            KeyboardStatus::Ready
        }),
{
    if paste_busy {
        KeyboardStatus::Pasting
    } else if remote {
        KeyboardStatus::Remote
    } else {
        KeyboardStatus::Ready
    }
}

/// The pointer field: relative mode during remote input, else the last
/// position, else ready.
pub fn pointer_status(mode: MouseMode, remote: bool, last_pointer: Option<(u16, u16)>) -> (r:
    PointerStatus)
    ensures
        r == (if mode == MouseMode::Relative && remote {
            PointerStatus::Relative
        } else {
            match last_pointer {
                Some(p) => PointerStatus::At(p.0, p.1),
                None => PointerStatus::Ready,
            }
        }),
{
    if mode == MouseMode::Relative && remote {
        PointerStatus::Relative
    } else {
        match last_pointer {
            Some(p) => PointerStatus::At(p.0, p.1),
            None => PointerStatus::Ready,
        }
    }
}

/// After remote input was left, the first absolute report is always due,
/// whatever was sent before: re-entering at the same place sends that place
/// again.
pub proof fn lemma_report_due_after_leaving(state: (u8, u16, u16), now: Nanos, interval: Nanos)
    ensures
        absolute_due(state, None, None, now, interval),
{
}

/// A report never repeats the last one sent.
pub proof fn lemma_no_repeated_report(
    state: (u8, u16, u16),
    sent_at: Option<Nanos>,
    now: Nanos,
    interval: Nanos,
)
    ensures
        !absolute_due(state, Some(state), sent_at, now, interval),
{
}

/// With the buttons unchanged since the last report, reports are at least
/// `interval` apart.
pub proof fn lemma_reports_spaced(
    state: (u8, u16, u16),
    last: (u8, u16, u16),
    sent_at: Nanos,
    now: Nanos,
    interval: Nanos,
)
    requires
        interval > 0,
        last.0 == state.0,
        absolute_due(state, Some(last), Some(sent_at), now, interval),
    ensures
        now >= sent_at + interval,
{
}

/// A button change is reported at once, however recent the last report.
pub proof fn lemma_button_change_reported(
    state: (u8, u16, u16),
    last: (u8, u16, u16),
    sent_at: Option<Nanos>,
    now: Nanos,
    interval: Nanos,
)
    requires
        last.0 != state.0,
    ensures
        absolute_due(state, Some(last), sent_at, now, interval),
{
}

} // verus!
