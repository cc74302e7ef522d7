use ipkvm::connect::{elapsed_since, DESKTOP_PREVIEW_TIMEOUT};
use ipkvm::desktop_input::{
    egui_key_to_keysym, is_mode_toggle_combo, is_remote_exit_combo, modifier_diff,
    pointer_active, pointer_button_mask, remote_focus_filter, special_key_sequence, HeldButtons,
    InputEvent, KeyAction, KeyModifiers, KeyboardKey, SpecialKey, XK_ALT_L, XK_CONTROL_L,
    XK_DELETE, XK_SHIFT_L,
};
use ipkvm::focus::{key_outcome, FocusState, KeyOutcome, PanelFrame};

const MS: u64 = 1_000_000;

fn no_mods() -> KeyModifiers {
    KeyModifiers::default()
}

fn ctrl_alt() -> KeyModifiers {
    KeyModifiers { ctrl: true, alt: true, ..KeyModifiers::default() }
}

fn quiet_frame() -> PanelFrame {
    PanelFrame {
        online: true,
        pressed_video: false,
        clicked_video: false,
        window_lost: false,
        any_click: false,
        has_focus: true,
        exit_combo: false,
        toggle_combo: false,
        relative_mode: false,
        modifiers: no_mods(),
    }
}

#[test]
fn ctrl_alt_del_sequence_presses_modifiers_before_delete_and_releases_reverse() {
    assert_eq!(
        special_key_sequence(SpecialKey::CtrlAltDel),
        vec![
            KeyAction::Down(XK_CONTROL_L),
            KeyAction::Down(XK_ALT_L),
            KeyAction::Down(XK_DELETE),
            KeyAction::Up(XK_DELETE),
            KeyAction::Up(XK_ALT_L),
            KeyAction::Up(XK_CONTROL_L),
        ]
    );
}

#[test]
fn function_keys_use_x11_keysym_range() {
    assert_eq!(special_key_sequence(SpecialKey::F(1))[0], KeyAction::Down(0xffbe));
    assert_eq!(special_key_sequence(SpecialKey::F(12))[0], KeyAction::Down(0xffc9));
}

#[test]
fn pointer_active_requires_focus_or_held_button() {
    assert!(!pointer_active(false, 0, 0));
    assert!(pointer_active(true, 0, 0));
    assert!(pointer_active(false, 1, 0));
    assert!(pointer_active(false, 0, 1));
}

#[test]
fn preview_refresh_timeout_of_desktop_console_is_two_seconds() {
    let now: u64 = 10_000 * MS;
    let opened = now - DESKTOP_PREVIEW_TIMEOUT - MS;
    assert!(elapsed_since(Some(opened), DESKTOP_PREVIEW_TIMEOUT, now));
    assert!(!elapsed_since(Some(now), DESKTOP_PREVIEW_TIMEOUT, now));
    assert!(!elapsed_since(None, DESKTOP_PREVIEW_TIMEOUT, now));
}

#[test]
fn letters_respect_shift_for_case() {
    assert_eq!(egui_key_to_keysym(KeyboardKey::A, no_mods()), Some(0x61));
    assert_eq!(
        egui_key_to_keysym(KeyboardKey::A, KeyModifiers { shift: true, ..KeyModifiers::default() }),
        Some(0x41)
    );
}

#[test]
fn digits_map_shifted_symbols() {
    assert_eq!(egui_key_to_keysym(KeyboardKey::Num1, no_mods()), Some(0x31));
    assert_eq!(
        egui_key_to_keysym(KeyboardKey::Num1, KeyModifiers { shift: true, ..KeyModifiers::default() }),
        Some(0x21)
    );
}

#[test]
fn unsupported_keys_return_none() {
    assert_eq!(egui_key_to_keysym(KeyboardKey::Minus, no_mods()), None);
}

#[test]
fn desktop_modifier_diff_emits_down_then_up_in_stable_order() {
    let none = no_mods();
    let pressed = KeyModifiers { shift: true, ctrl: true, ..KeyModifiers::default() };
    assert_eq!(
        modifier_diff(none, pressed),
        vec![KeyAction::Down(XK_SHIFT_L), KeyAction::Down(XK_CONTROL_L)]
    );
    assert_eq!(
        modifier_diff(pressed, none),
        vec![KeyAction::Up(XK_SHIFT_L), KeyAction::Up(XK_CONTROL_L)]
    );
}

#[test]
fn pointer_button_mask_tracks_held_buttons() {
    let primary = HeldButtons { primary: true, secondary: false, middle: false, any_down: true };
    assert_eq!(pointer_button_mask(primary, 0), 1);
    let none = HeldButtons { primary: false, secondary: false, middle: false, any_down: false };
    assert_eq!(pointer_button_mask(none, 1), 0);
    let gap = HeldButtons { primary: false, secondary: false, middle: false, any_down: true };
    assert_eq!(pointer_button_mask(gap, 4), 4, "a held button keeps the previous mask");
}

#[test]
fn remote_focus_filter_keeps_navigation_keys_in_remote_mode() {
    let filter = remote_focus_filter();
    assert!(filter.tab && filter.horizontal_arrows && filter.vertical_arrows && filter.escape);
}

#[test]
fn desktop_remote_exit_combo_requires_ctrl_alt_k_pressed_once() {
    let combo = |key: KeyboardKey, pressed: bool, repeat: bool, modifiers: KeyModifiers| {
        is_remote_exit_combo(&InputEvent::Key { key, pressed, repeat, modifiers })
    };
    assert!(combo(KeyboardKey::K, true, false, ctrl_alt()));
    assert!(!combo(KeyboardKey::K, false, false, ctrl_alt()));
    assert!(!combo(KeyboardKey::K, true, true, ctrl_alt()));
    assert!(!combo(KeyboardKey::K, true, false, KeyModifiers { ctrl: true, ..KeyModifiers::default() }));
    assert!(!combo(KeyboardKey::K, true, false, KeyModifiers { alt: true, ..KeyModifiers::default() }));
    assert!(!combo(KeyboardKey::A, true, false, ctrl_alt()));
    assert!(!is_remote_exit_combo(&InputEvent::Other));
}

#[test]
fn desktop_mode_toggle_combo_requires_ctrl_alt_m_pressed_once() {
    let combo = |key: KeyboardKey, pressed: bool, repeat: bool, modifiers: KeyModifiers| {
        is_mode_toggle_combo(&InputEvent::Key { key, pressed, repeat, modifiers })
    };
    assert!(combo(KeyboardKey::M, true, false, ctrl_alt()));
    assert!(!combo(KeyboardKey::M, false, false, ctrl_alt()));
    assert!(!combo(KeyboardKey::M, true, true, ctrl_alt()));
    assert!(!combo(KeyboardKey::M, true, false, KeyModifiers { ctrl: true, ..KeyModifiers::default() }));
    assert!(!combo(KeyboardKey::K, true, false, ctrl_alt()));
}

#[test]
fn offline_sync_resets_paste_and_focus_state() {
    let mut state = FocusState::new();
    state.paste_busy = true;
    state.video_focused = true;
    state.pointer_mask = 1;
    state.last_pointer = Some((1, 2));
    state.last_modifiers = KeyModifiers { shift: true, ..KeyModifiers::default() };
    state.reset();
    assert!(!state.paste_busy);
    assert!(!state.video_focused);
    assert_eq!(state.pointer_mask, 0);
    assert!(state.last_pointer.is_none());
    assert_eq!(state.last_modifiers, KeyModifiers::default());
}

#[test]
fn stop_session_resets_input_state() {
    let mut state = FocusState::new();
    state.paste_busy = true;
    state.video_focused = true;
    state.pointer_mask = 1;
    state.reset();
    assert!(!state.paste_busy);
    assert!(!state.video_focused);
    assert_eq!(state.pointer_mask, 0);
}

#[test]
fn click_on_panel_starts_remote_input_and_locks_cursor_in_relative_mode() {
    let mut state = FocusState::new();
    let held = KeyModifiers { shift: true, ..KeyModifiers::default() };
    let commands = state.frame(PanelFrame {
        pressed_video: true,
        relative_mode: true,
        modifiers: held,
        ..quiet_frame()
    });
    assert!(commands.request_focus);
    assert!(!commands.release_all);
    assert!(commands.lock_focus);
    assert_eq!(commands.cursor, Some(true));
    assert!(!commands.stop);
    assert!(state.video_focused);
    assert!(state.cursor_grabbed);
    assert_eq!(state.last_modifiers, held, "held modifiers become the baseline");
}

#[test]
fn losing_the_window_ends_remote_input() {
    let mut state = FocusState::new();
    state.frame(PanelFrame { pressed_video: true, relative_mode: true, ..quiet_frame() });
    let commands = state.frame(PanelFrame { window_lost: true, relative_mode: true, ..quiet_frame() });
    assert!(commands.release_all);
    assert!(commands.surrender_focus);
    assert_eq!(commands.cursor, Some(false));
    assert!(!state.video_focused);
    assert!(!state.cursor_grabbed);
}

#[test]
fn exit_combo_ends_remote_input_and_stops_the_frame() {
    let mut state = FocusState::new();
    state.frame(PanelFrame { pressed_video: true, ..quiet_frame() });
    let commands = state.frame(PanelFrame { exit_combo: true, modifiers: ctrl_alt(), ..quiet_frame() });
    assert!(commands.release_all);
    assert!(commands.stop);
    assert!(!state.video_focused);
    assert_eq!(state.last_modifiers, ctrl_alt());
}

#[test]
fn toggle_combo_asks_for_other_mode() {
    let mut state = FocusState::new();
    state.frame(PanelFrame { pressed_video: true, ..quiet_frame() });
    let commands = state.frame(PanelFrame { toggle_combo: true, ..quiet_frame() });
    assert!(commands.toggle_mode);
    assert!(commands.stop);
    assert!(state.video_focused);
}

#[test]
fn offline_frame_frees_cursor() {
    let mut state = FocusState::new();
    state.frame(PanelFrame { pressed_video: true, relative_mode: true, ..quiet_frame() });
    assert!(state.cursor_grabbed);
    let commands = state.frame(PanelFrame { online: false, ..quiet_frame() });
    assert_eq!(commands.cursor, Some(false));
    assert!(commands.stop);
    assert!(!state.cursor_grabbed);
}

#[test]
fn absolute_pointer_reports_are_deduplicated_and_throttled() {
    let mut state = FocusState::new();
    let t0 = 1_000 * MS;
    assert_eq!(state.absolute_pointer(1, 10, 20, t0, 33 * MS), Some((1, 10, 20)));
    assert_eq!(state.absolute_pointer(1, 11, 20, t0 + MS, 33 * MS), None);
    assert_eq!(state.pending_pointer, Some((1, 11, 20)));
    assert_eq!(state.absolute_pointer(0, 11, 20, t0 + 2 * MS, 33 * MS), Some((0, 11, 20)));
    assert_eq!(state.absolute_pointer(0, 11, 20, t0 + 100 * MS, 33 * MS), None);
    assert_eq!(state.pending_pointer, None);
}

#[test]
fn relative_pointer_reports_after_sampling() {
    let mut state = FocusState::new();
    let t0 = 1_000 * MS;
    let due = state.relative_due(0, 2, t0, 33 * MS);
    assert!(due);
    assert_eq!(state.relative_pointer(0, due, 5, 0, t0), Some((0, 5, 0, 2)));
    assert_eq!(state.relative_wheel, 0);
    let due = state.relative_due(0, 0, t0 + MS, 33 * MS);
    assert!(!due);
    assert_eq!(state.relative_pointer(0, due, 0, 0, t0 + MS), None);
}

#[test]
fn key_events_skip_repeats_and_unsupported_keys() {
    assert_eq!(key_outcome(KeyboardKey::A, true, true, no_mods()), KeyOutcome::Skip);
    assert_eq!(
        key_outcome(KeyboardKey::A, true, false, no_mods()),
        KeyOutcome::Send { pressed: true, keysym: 0x61 }
    );
    assert_eq!(key_outcome(KeyboardKey::Minus, false, false, no_mods()), KeyOutcome::Unsupported);
}
