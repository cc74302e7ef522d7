//! Remote focus of the immediate-mode desktop console. Each frame the toolkit
//! reports what happened to the video panel; [`FocusState::frame`] decides
//! whether remote input starts or ends and what to tell the toolkit and the
//! target, and the pointer and key helpers say what to send.

use vstd::prelude::*;
use crate::desktop_input::{
    keysym_for, modifier_changes, modifier_diff, egui_key_to_keysym, KeyAction, KeyModifiers,
    KeyboardKey,
};
use crate::input::{elapsed, pointer_changed, throttle_elapsed, Nanos};
use crate::remote::absolute_due;
use crate::sink::{sat_i8, saturating_add_i8};

verus! {

/// What the toolkit reported about the video panel this frame.
#[derive(Clone, Copy, Debug, PartialEq, Eq, Structural)]
pub struct PanelFrame {
    /// The control device is online.
    pub online: bool,
    /// A button went down on the panel.
    pub pressed_video: bool,
    /// The panel was clicked.
    pub clicked_video: bool,
    /// The window lost focus.
    pub window_lost: bool,
    /// Some click happened anywhere.
    pub any_click: bool,
    /// The panel holds keyboard focus.
    pub has_focus: bool,
    /// Ctrl+Alt+K was pressed.
    pub exit_combo: bool,
    /// Ctrl+Alt+M was pressed.
    pub toggle_combo: bool,
    /// Relative mouse mode is selected.
    pub relative_mode: bool,
    /// Modifiers held now.
    pub modifiers: KeyModifiers,
}

/// What to do after [`FocusState::frame`].
#[derive(Clone, Copy, Debug, PartialEq, Eq, Structural)]
pub struct FocusCommands {
    /// Ask the toolkit to focus the panel.
    pub request_focus: bool,
    /// Release every key and button on the target.
    pub release_all: bool,
    /// Give keyboard focus back to the rest of the window.
    pub surrender_focus: bool,
    /// Switch the mouse mode.
    pub toggle_mode: bool,
    /// Keep Tab, arrows and Escape with the panel.
    pub lock_focus: bool,
    /// Lock and hide (`Some(true)`) or free and show (`Some(false)`) the
    /// local cursor.
    pub cursor: Option<bool>,
    /// Pointer and keys are not handled this frame.
    pub stop: bool,
}

/// Input state of the console between frames.
#[derive(Clone, Copy, Debug, PartialEq, Eq)]
pub struct FocusState {
    pub video_focused: bool,
    pub cursor_grabbed: bool,
    pub pointer_mask: u8,
    pub last_pointer: Option<(u16, u16)>,
    pub last_modifiers: KeyModifiers,
    pub pending_pointer: Option<(u8, u16, u16)>,
    pub relative_wheel: i8,
    pub last_pointer_sent: Option<(u8, u16, u16)>,
    pub last_pointer_sent_at: Option<Nanos>,
    pub paste_busy: bool,
}

/// No modifier held.
pub open spec fn released_modifiers() -> KeyModifiers {
    KeyModifiers { alt: false, ctrl: false, shift: false, mac_cmd: false, command: false }
}

/// Remote input is left because of something outside the panel: the window
/// lost focus, a click landed elsewhere, or the panel lost keyboard focus.
pub open spec fn leaves_remote(focused: bool, f: PanelFrame) -> bool {
    focused && (f.window_lost || (f.any_click && !f.clicked_video) || (!f.clicked_video
        && !f.has_focus))
}

/// `s` with every held input forgotten and remote input off.
pub open spec fn idle(s: FocusState) -> FocusState {
    FocusState {
        video_focused: false,
        pointer_mask: 0,
        last_pointer: None,
        pending_pointer: None,
        relative_wheel: 0,
        last_pointer_sent: None,
        last_pointer_sent_at: None,
        ..s
    }
}

/// The state after the focus part of a frame, before the cursor decision.
pub open spec fn focus_after(s: FocusState, f: PanelFrame) -> FocusState {
    let touched = f.pressed_video || f.clicked_video;
    let entered = if !s.video_focused && touched {
        FocusState { video_focused: true, last_modifiers: f.modifiers, ..s }
    } else {
        s
    };
    if leaves_remote(entered.video_focused, f) {
        idle(entered)
    } else {
        entered
    }
}

/// Everything a frame does to the state and what it asks for (see
/// [`FocusState::frame`]).
pub open spec fn frame_outcome(s: FocusState, f: PanelFrame) -> (FocusState, FocusCommands) {
    if !f.online {
        (
            FocusState {
                cursor_grabbed: false,
                pointer_mask: 0,
                last_pointer: None,
                ..s
            },
            FocusCommands {
                request_focus: false,
                release_all: false,
                surrender_focus: false,
                toggle_mode: false,
                lock_focus: false,
                cursor: if s.cursor_grabbed {
                    Some(false)
                } else {
                    None
                },
                stop: true,
            },
        )
    } else {
        let touched = f.pressed_video || f.clicked_video;
        let left = leaves_remote(
            s.video_focused || touched,
            f,
        );
        let a = focus_after(s, f);
        if a.video_focused && f.exit_combo {
            (
                FocusState {
                    video_focused: false,
                    pointer_mask: 0,
                    last_pointer: None,
                    last_modifiers: f.modifiers,
                    ..a
                },
                FocusCommands {
                    request_focus: touched,
                    release_all: true,
                    surrender_focus: true,
                    toggle_mode: false,
                    lock_focus: false,
                    cursor: None,
                    stop: true,
                },
            )
        } else if a.video_focused && f.toggle_combo {
            (
                a,
                FocusCommands {
                    request_focus: touched,
                    release_all: left,
                    surrender_focus: left,
                    toggle_mode: true,
                    lock_focus: false,
                    cursor: None,
                    stop: true,
                },
            )
        } else {
            let grab = a.video_focused && f.relative_mode;
            (
                FocusState { cursor_grabbed: grab, ..a },
                FocusCommands {
                    request_focus: touched,
                    release_all: left,
                    surrender_focus: left,
                    toggle_mode: false,
                    lock_focus: a.video_focused,
                    cursor: if grab != a.cursor_grabbed {
                        Some(grab)
                    } else {
                        None
                    },
                    stop: false,
                },
            )
        }
    }
}

/// What a key event sends: nothing for auto-repeat, the keysym if the key
/// has one, or a note that it is unsupported.
#[derive(Clone, Copy, Debug, PartialEq, Eq, Structural)]
pub enum KeyOutcome {
    Skip,
    Send { pressed: bool, keysym: u32 },
    Unsupported,
}

/// What a key event sends (see [`KeyOutcome`]).
pub fn key_outcome(key: KeyboardKey, pressed: bool, repeat: bool, modifiers: KeyModifiers) -> (r:
    KeyOutcome)
    ensures
        r == (if repeat {
            KeyOutcome::Skip
        } else {
            match keysym_for(key, modifiers.shift) {
                Some(k) => KeyOutcome::Send { pressed, keysym: k },
                None => KeyOutcome::Unsupported,
            }
        }),
{
    if repeat {
        return KeyOutcome::Skip;
    }
    match egui_key_to_keysym(key, modifiers) {
        Some(keysym) => KeyOutcome::Send { pressed, keysym },
        None => KeyOutcome::Unsupported,
    }
}

impl FocusState {
    /// Nothing focused, held or sent.
    pub fn new() -> (r: Self)
        ensures
            !r.video_focused,
            !r.cursor_grabbed,
            !r.paste_busy,
            r == idle(r),
            r.last_modifiers == released_modifiers(),
    {
        FocusState {
            video_focused: false,
            cursor_grabbed: false,
            pointer_mask: 0,
            last_pointer: None,
            last_modifiers: KeyModifiers {
                alt: false,
                ctrl: false,
                shift: false,
                mac_cmd: false,
                command: false,
            },
            pending_pointer: None,
            relative_wheel: 0,
            last_pointer_sent: None,
            last_pointer_sent_at: None,
            paste_busy: false,
        }
    }

    /// The focus part of a frame. Offline, the cursor is freed and the
    /// buttons forgotten. Otherwise a press or click on the panel starts
    /// remote input (the modifiers held then become the baseline); leaving
    /// the window or clicking elsewhere ends it, releasing everything on the
    /// target; Ctrl+Alt+K ends it too, and Ctrl+Alt+M asks for the other
    /// mouse mode; the cursor is locked exactly in relative mode with focus.
    pub fn frame(&mut self, f: PanelFrame) -> (r: FocusCommands)
        ensures
            (*final(self), r) == frame_outcome(*old(self), f),
    {
        if !f.online {
            let cursor = if self.cursor_grabbed {
                Some(false)
            } else {
                None
            };
            self.cursor_grabbed = false;
            self.pointer_mask = 0;
            self.last_pointer = None;
            return FocusCommands {
                request_focus: false,
                release_all: false,
                surrender_focus: false,
                toggle_mode: false,
                lock_focus: false,
                cursor,
                stop: true,
            };
        }
        let touched = f.pressed_video || f.clicked_video;
        if !self.video_focused && touched {
            self.last_modifiers = f.modifiers;
            self.video_focused = true;
        }
        let left = self.video_focused && (f.window_lost || (f.any_click && !f.clicked_video) || (
        !f.clicked_video && !f.has_focus));
        if left {
            self.video_focused = false;
            self.pointer_mask = 0;
            self.last_pointer = None;
            self.pending_pointer = None;
            self.relative_wheel = 0;
            self.last_pointer_sent = None;
            self.last_pointer_sent_at = None;
        }
        if self.video_focused && f.exit_combo {
            self.video_focused = false;
            self.pointer_mask = 0;
            self.last_pointer = None;
            self.last_modifiers = f.modifiers;
            return FocusCommands {
                request_focus: touched,
                release_all: true,
                surrender_focus: true,
                toggle_mode: false,
                lock_focus: false,
                cursor: None,
                stop: true,
            };
        }
        if self.video_focused && f.toggle_combo {
            return FocusCommands {
                request_focus: touched,
                release_all: left,
                surrender_focus: left,
                toggle_mode: true,
                lock_focus: false,
                cursor: None,
                stop: true,
            };
        }
        let grab = self.video_focused && f.relative_mode;
        let cursor = if grab != self.cursor_grabbed {
            Some(grab)
        } else {
            None
        };
        self.cursor_grabbed = grab;
        FocusCommands {
            request_focus: touched,
            release_all: left,
            surrender_focus: left,
            toggle_mode: false,
            lock_focus: self.video_focused,
            cursor,
            stop: false,
        }
    }

    /// Absolute mode, pointer over frame position `(x, y)` with buttons
    /// `mask` at `now`: the report to send, if one is due (see
    /// [`absolute_due`]). The position and mask are remembered.
    pub fn absolute_pointer(&mut self, mask: u8, x: u16, y: u16, now: Nanos, interval: Nanos) -> (r:
        Option<(u8, u16, u16)>)
        ensures
            ({
                let state = (mask, x, y);
                let mask_changed = old(self).last_pointer_sent matches Some(l) && l.0 != mask;
                let waited = match old(self).last_pointer_sent_at {
                    None => true,
                    Some(t) => elapsed(now, t) >= interval,
                };
                if absolute_due(
                    state,
                    old(self).last_pointer_sent,
                    old(self).last_pointer_sent_at,
                    now,
                    interval,
                ) {
                    &&& r == Some(state)
                    &&& final(self).last_pointer_sent == Some(state)
                    &&& final(self).last_pointer_sent_at == Some(now)
                    &&& final(self).pending_pointer is None
                } else {
                    &&& r is None
                    &&& final(self).last_pointer_sent == old(self).last_pointer_sent
                    &&& final(self).last_pointer_sent_at == old(self).last_pointer_sent_at
                    &&& final(self).pending_pointer == (if mask_changed || waited {
                        None
                    } else {
                        Some(state)
                    })
                }
            }),
            final(self).last_pointer == Some((x, y)),
            final(self).pointer_mask == mask,
            final(self).video_focused == old(self).video_focused,
            final(self).cursor_grabbed == old(self).cursor_grabbed,
            final(self).relative_wheel == old(self).relative_wheel,
            final(self).last_modifiers == old(self).last_modifiers,
            final(self).paste_busy == old(self).paste_busy,
    {
        self.pending_pointer = Some((mask, x, y));
        let mask_changed = match self.last_pointer_sent {
            Some(last) => last.0 != mask,
            None => false,
        };
        let mut sent: Option<(u8, u16, u16)> = None;
        if mask_changed || throttle_elapsed(now, self.last_pointer_sent_at, interval) {
            if pointer_changed((mask, x, y), self.last_pointer_sent) {
                sent = Some((mask, x, y));
                self.last_pointer_sent = Some((mask, x, y));
                self.last_pointer_sent_at = Some(now);
            }
            self.pending_pointer = None;
        }
        self.last_pointer = Some((x, y));
        self.pointer_mask = mask;
        sent
    }

    /// Relative mode: wheel steps of this frame join the accumulated ones,
    /// and the result says whether a sample is due now (the buttons changed,
    /// or the minimum interval has passed).
    pub fn relative_due(&mut self, mask: u8, wheel_steps: i8, now: Nanos, interval: Nanos) -> (due:
        bool)
        ensures
            due == (mask != old(self).pointer_mask || match old(self).last_pointer_sent_at {
                None => true,
                Some(t) => elapsed(now, t) >= interval,
            }),
            *final(self) == (FocusState {
                relative_wheel: sat_i8(old(self).relative_wheel as int, wheel_steps as int),
                ..*old(self)
            }),
    {
        self.relative_wheel = saturating_add_i8(self.relative_wheel, wheel_steps);
        mask != self.pointer_mask || throttle_elapsed(now, self.last_pointer_sent_at, interval)
    }

    /// Relative mode after [`FocusState::relative_due`]: with the sampled
    /// motion `(dx, dy)` (zero when no sample was due), the report to send:
    /// one is sent when a sample was due and there is motion, wheel or a
    /// button change. The wheel is cleared whenever a sample was due, and the
    /// mask is remembered.
    pub fn relative_pointer(&mut self, mask: u8, sampled: bool, dx: i16, dy: i16, now: Nanos) -> (r:
        Option<(u8, i16, i16, i8)>)
        ensures
            ({
                let mask_changed = mask != old(self).pointer_mask;
                let send = sampled && (dx != 0 || dy != 0 || old(self).relative_wheel != 0
                    || mask_changed);
                &&& r == (if send {
                    Some((mask, dx, dy, old(self).relative_wheel))
                } else {
                    None
                })
                &&& final(self).last_pointer_sent == (if send {
                    Some((mask, u16::MAX, u16::MAX))
                } else {
                    old(self).last_pointer_sent
                })
                &&& final(self).last_pointer_sent_at == (if send {
                    Some(now)
                } else {
                    old(self).last_pointer_sent_at
                })
                &&& final(self).relative_wheel == (if sampled {
                    0
                } else {
                    old(self).relative_wheel
                })
            }),
            final(self).pointer_mask == mask,
            final(self).video_focused == old(self).video_focused,
            final(self).cursor_grabbed == old(self).cursor_grabbed,
            final(self).last_pointer == old(self).last_pointer,
            final(self).pending_pointer == old(self).pending_pointer,
            final(self).last_modifiers == old(self).last_modifiers,
            final(self).paste_busy == old(self).paste_busy,
    {
        let mut sent: Option<(u8, i16, i16, i8)> = None;
        if sampled {
            let mask_changed = mask != self.pointer_mask;
            let wheel = self.relative_wheel;
            if dx != 0 || dy != 0 || wheel != 0 || mask_changed {
                sent = Some((mask, dx, dy, wheel));
                self.last_pointer_sent = Some((mask, u16::MAX, u16::MAX));
                self.last_pointer_sent_at = Some(now);
            }
            self.relative_wheel = 0;
        }
        self.pointer_mask = mask;
        sent
    }

    /// End of the pointer part of a frame: no button held means an empty
    /// mask.
    pub fn settle_mask(&mut self, mask: u8)
        ensures
            *final(self) == (if mask == 0 {
                FocusState { pointer_mask: 0, ..*old(self) }
            } else {
                *old(self)
            }),
    {
        if mask == 0 {
            self.pointer_mask = 0;
        }
    }

    /// The keyboard part of a frame with focus: the actions that bring the
    /// target's modifiers to `modifiers`, which become the baseline.
    pub fn modifiers_now(&mut self, modifiers: KeyModifiers) -> (r: Vec<KeyAction>)
        ensures
            r@ == modifier_changes(old(self).last_modifiers, modifiers),
            *final(self) == (FocusState { last_modifiers: modifiers, ..*old(self) }),
    {
        let actions = modifier_diff(self.last_modifiers, modifiers);
        self.last_modifiers = modifiers;
        actions
    }

    /// The mouse mode was switched: the wheel and the last report are
    /// forgotten.
    pub fn mode_switched(&mut self)
        ensures
            *final(self) == (FocusState {
                relative_wheel: 0,
                last_pointer_sent: None,
                ..*old(self)
            }),
    {
        self.relative_wheel = 0;
        self.last_pointer_sent = None;
    }

    /// A new session was connected: buttons, position and reports start over.
    pub fn connected(&mut self)
        ensures
            *final(self) == (FocusState {
                pointer_mask: 0,
                last_pointer: None,
                pending_pointer: None,
                relative_wheel: 0,
                last_pointer_sent: None,
                last_pointer_sent_at: None,
                ..*old(self)
            }),
    {
        self.pointer_mask = 0;
        self.last_pointer = None;
        self.pending_pointer = None;
        self.relative_wheel = 0;
        self.last_pointer_sent = None;
        self.last_pointer_sent_at = None;
    }

    /// The session stopped or the control device went offline: nothing is
    /// focused, grabbed, held, pasted or pending any more.
    pub fn reset(&mut self)
        ensures
            *final(self) == (FocusState {
                cursor_grabbed: false,
                paste_busy: false,
                last_modifiers: released_modifiers(),
                ..idle(*old(self))
            }),
    {
        self.video_focused = false;
        self.cursor_grabbed = false;
        self.paste_busy = false;
        self.pointer_mask = 0;
        self.last_pointer = None;
        self.last_modifiers = KeyModifiers {
            alt: false,
            ctrl: false,
            shift: false,
            mac_cmd: false,
            command: false,
        };
        self.pending_pointer = None;
        self.relative_wheel = 0;
        self.last_pointer_sent = None;
        self.last_pointer_sent_at = None;
    }
}

/// Offline, a frame frees the local cursor and handles no input.
pub proof fn lemma_offline_frees_cursor(s: FocusState, f: PanelFrame)
    requires
        !f.online,
    ensures
        !frame_outcome(s, f).0.cursor_grabbed,
        frame_outcome(s, f).1.stop,
        frame_outcome(s, f).0.pointer_mask == 0,
{
}

/// Whenever a frame goes on to pointer and keys, the cursor is locked exactly
/// when the panel has focus in relative mode.
pub proof fn lemma_cursor_follows_focus(s: FocusState, f: PanelFrame)
    requires
        !frame_outcome(s, f).1.stop,
    ensures
        frame_outcome(s, f).0.cursor_grabbed == (frame_outcome(s, f).0.video_focused
            && f.relative_mode),
{
}

/// Losing the window during remote input ends it and releases everything on
/// the target.
pub proof fn lemma_window_loss_releases(s: FocusState, f: PanelFrame)
    requires
        f.online,
        s.video_focused,
        f.window_lost,
    ensures
        !frame_outcome(s, f).0.video_focused,
        frame_outcome(s, f).1.release_all,
        frame_outcome(s, f).1.surrender_focus,
        frame_outcome(s, f).0.pointer_mask == 0,
{
}

/// Ctrl+Alt+K during remote input ends it and releases everything.
pub proof fn lemma_exit_combo_releases(s: FocusState, f: PanelFrame)
    requires
        f.online,
        s.video_focused,
        f.exit_combo,
    ensures
        !frame_outcome(s, f).0.video_focused,
        frame_outcome(s, f).1.release_all,
        frame_outcome(s, f).1.surrender_focus,
{
}

} // verus!
