use ipkvm::config::MouseMode;
use ipkvm::input::{
    is_mode_toggle_combo, is_remote_exit_combo, modifier_diff, pointer_changed,
    special_key_from_menu, special_key_sequence, throttle_elapsed, KeyAction, Modifiers,
    SpecialKey,
};
use ipkvm::keymap::{
    physical_code_to_keysym, KeyCode, XK_ALT_L, XK_ALT_R, XK_BACKSPACE, XK_CONTROL_L, XK_DELETE,
    XK_DOWN, XK_ESCAPE, XK_F1, XK_LEFT, XK_RETURN, XK_RIGHT, XK_SHIFT_L, XK_TAB, XK_UP,
};
use ipkvm::remote::{
    cursor_grab, keyboard_status, mouse_button_bit, pointer_status, toggled_mode, FocusChange,
    KeyPress, KeyboardStatus, MouseButton, PointerStatus, RelativeReport, RemoteInput,
    POINTER_MIN_INTERVAL,
};

const MS: u64 = 1_000_000;

fn mods(control: bool, alt: bool, shift: bool) -> Modifiers {
    Modifiers { shift, control, alt, logo: false }
}

#[test]
fn input_ctrl_alt_del_sequence_presses_modifiers_before_delete_and_releases_reverse() {
    assert_eq!(
        special_key_sequence(SpecialKey::CtrlAltDel),
        vec![
            KeyAction::Down(0xffe3),
            KeyAction::Down(0xffe9),
            KeyAction::Down(0xffff),
            KeyAction::Up(0xffff),
            KeyAction::Up(0xffe9),
            KeyAction::Up(0xffe3),
        ]
    );
}

#[test]
fn win_and_print_screen_are_single_press_release() {
    assert_eq!(
        special_key_sequence(SpecialKey::Win),
        vec![KeyAction::Down(0xffeb), KeyAction::Up(0xffeb)]
    );
    assert_eq!(
        special_key_sequence(SpecialKey::PrintScreen),
        vec![KeyAction::Down(0xff61), KeyAction::Up(0xff61)]
    );
}

#[test]
fn alt_tab_holds_alt_while_tapping_tab() {
    assert_eq!(
        special_key_sequence(SpecialKey::AltTab),
        vec![
            KeyAction::Down(0xffe9),
            KeyAction::Down(0xff09),
            KeyAction::Up(0xff09),
            KeyAction::Up(0xffe9),
        ]
    );
}

#[test]
fn special_key_from_menu_maps_names() {
    assert_eq!(special_key_from_menu("CtrlAltDel"), Some(SpecialKey::CtrlAltDel));
    assert_eq!(special_key_from_menu("Win"), Some(SpecialKey::Win));
    assert_eq!(special_key_from_menu("PrintScreen"), Some(SpecialKey::PrintScreen));
    assert_eq!(special_key_from_menu("AltTab"), Some(SpecialKey::AltTab));
    assert_eq!(special_key_from_menu("unknown"), None);
}

#[test]
fn pointer_changed_detects_position_or_mask_changes() {
    let last = Some((0, 100, 100));
    assert!(!pointer_changed((0, 100, 100), last));
    assert!(pointer_changed((1, 100, 100), last));
    assert!(pointer_changed((0, 101, 100), last));
    assert!(pointer_changed((0, 100, 100), None));
}

#[test]
fn throttle_elapsed_requires_interval_to_pass() {
    let start: u64 = 5_000 * MS;
    assert!(throttle_elapsed(start, None, 33 * MS));
    assert!(throttle_elapsed(start + 34 * MS, Some(start), 33 * MS));
    assert!(!throttle_elapsed(start + 32 * MS, Some(start), 33 * MS));
}

#[test]
fn remote_exit_combo_requires_ctrl_alt_k_pressed_once() {
    assert!(is_remote_exit_combo(KeyCode::KeyK, mods(true, true, false), false));
    assert!(!is_remote_exit_combo(KeyCode::KeyK, mods(true, true, false), true));
    assert!(!is_remote_exit_combo(KeyCode::KeyK, mods(true, false, false), false));
    assert!(!is_remote_exit_combo(KeyCode::KeyK, mods(false, true, false), false));
    assert!(!is_remote_exit_combo(KeyCode::KeyA, mods(true, true, false), false));
}

#[test]
fn mode_toggle_combo_requires_ctrl_alt_m_pressed_once() {
    assert!(is_mode_toggle_combo(KeyCode::KeyM, mods(true, true, false), false));
    assert!(!is_mode_toggle_combo(KeyCode::KeyM, mods(true, true, false), true));
    assert!(!is_mode_toggle_combo(KeyCode::KeyM, mods(true, false, false), false));
    assert!(!is_mode_toggle_combo(KeyCode::KeyK, mods(true, true, false), false));
}

#[test]
fn modifier_diff_emits_down_then_up_in_stable_order() {
    let none = Modifiers::empty();
    let pressed = Modifiers { shift: true, control: true, alt: true, logo: false };
    assert_eq!(
        modifier_diff(none, pressed),
        vec![KeyAction::Down(0xffe1), KeyAction::Down(0xffe3), KeyAction::Down(0xffe9)]
    );
    assert_eq!(
        modifier_diff(pressed, none),
        vec![KeyAction::Up(0xffe1), KeyAction::Up(0xffe3), KeyAction::Up(0xffe9)]
    );
}

#[test]
fn modifier_diff_back_and_forth_undoes_itself() {
    let a = Modifiers { shift: true, control: false, alt: true, logo: false };
    let b = Modifiers { shift: false, control: true, alt: true, logo: true };
    let forth = modifier_diff(a, b);
    let back = modifier_diff(b, a);
    let flipped: Vec<KeyAction> = forth
        .iter()
        .map(|action| match action {
            KeyAction::Down(k) => KeyAction::Up(*k),
            KeyAction::Up(k) => KeyAction::Down(*k),
        })
        .collect();
    assert_eq!(back, flipped);
    assert!(modifier_diff(a, a).is_empty());
}

#[test]
fn maps_representative_keys() {
    assert_eq!(physical_code_to_keysym(KeyCode::KeyA), Some(0x61));
    assert_eq!(physical_code_to_keysym(KeyCode::KeyZ), Some(0x7a));
    assert_eq!(physical_code_to_keysym(KeyCode::Digit0), Some(0x30));
    assert_eq!(physical_code_to_keysym(KeyCode::Digit9), Some(0x39));
    assert_eq!(physical_code_to_keysym(KeyCode::F1), Some(XK_F1));
    assert_eq!(physical_code_to_keysym(KeyCode::F12), Some(XK_F1 + 11));
    assert_eq!(physical_code_to_keysym(KeyCode::ArrowUp), Some(XK_UP));
    assert_eq!(physical_code_to_keysym(KeyCode::ArrowDown), Some(XK_DOWN));
    assert_eq!(physical_code_to_keysym(KeyCode::ArrowLeft), Some(XK_LEFT));
    assert_eq!(physical_code_to_keysym(KeyCode::ArrowRight), Some(XK_RIGHT));
    assert_eq!(physical_code_to_keysym(KeyCode::Enter), Some(XK_RETURN));
    assert_eq!(physical_code_to_keysym(KeyCode::Escape), Some(XK_ESCAPE));
    assert_eq!(physical_code_to_keysym(KeyCode::Backspace), Some(XK_BACKSPACE));
    assert_eq!(physical_code_to_keysym(KeyCode::Delete), Some(XK_DELETE));
    assert_eq!(physical_code_to_keysym(KeyCode::Tab), Some(XK_TAB));
    assert_eq!(physical_code_to_keysym(KeyCode::ControlLeft), Some(XK_CONTROL_L));
    assert_eq!(physical_code_to_keysym(KeyCode::AltRight), Some(XK_ALT_R));
    assert_eq!(physical_code_to_keysym(KeyCode::Space), Some(0x20));
    assert_eq!(physical_code_to_keysym(KeyCode::Comma), Some(',' as u32));
    assert_eq!(physical_code_to_keysym(KeyCode::Slash), Some('/' as u32));
    assert_eq!(physical_code_to_keysym(KeyCode::KanaMode), None);
}

#[test]
fn representative_keys_map_to_expected_keysyms() {
    let cases = [
        (KeyCode::KeyA, 0x61),
        (KeyCode::KeyZ, 0x7a),
        (KeyCode::Digit0, 0x30),
        (KeyCode::Digit9, 0x39),
        (KeyCode::F1, 0xffbe),
        (KeyCode::F12, 0xffc9),
        (KeyCode::Space, 0x20),
        (KeyCode::Comma, ',' as u32),
        (KeyCode::Backspace, XK_BACKSPACE),
        (KeyCode::Tab, XK_TAB),
        (KeyCode::Enter, XK_RETURN),
        (KeyCode::Escape, XK_ESCAPE),
        (KeyCode::Delete, XK_DELETE),
        (KeyCode::ArrowLeft, XK_LEFT),
        (KeyCode::ArrowUp, XK_UP),
        (KeyCode::ArrowRight, XK_RIGHT),
        (KeyCode::ArrowDown, XK_DOWN),
        (KeyCode::ShiftLeft, XK_SHIFT_L),
        (KeyCode::ControlLeft, XK_CONTROL_L),
        (KeyCode::AltLeft, XK_ALT_L),
    ];
    for (code, expected) in cases {
        assert_eq!(physical_code_to_keysym(code), Some(expected), "{code:?}");
    }
}

#[test]
fn uncovered_keys_return_none() {
    assert_eq!(physical_code_to_keysym(KeyCode::KanaMode), None);
    assert_eq!(physical_code_to_keysym(KeyCode::Lang1), None);
}

#[test]
fn mouse_buttons_map_to_rfb_mask_bits() {
    assert_eq!(mouse_button_bit(MouseButton::Left), 1);
    assert_eq!(mouse_button_bit(MouseButton::Right), 2);
    assert_eq!(mouse_button_bit(MouseButton::Middle), 4);
    assert_eq!(mouse_button_bit(MouseButton::Back), 0);
    assert_eq!(mouse_button_bit(MouseButton::Other(9)), 0);
}

#[test]
fn relative_mode_with_remote_input_grabs_cursor() {
    assert!(cursor_grab(true, MouseMode::Relative));
    assert!(!cursor_grab(true, MouseMode::Absolute));
    assert!(!cursor_grab(false, MouseMode::Relative));
    assert_eq!(toggled_mode(MouseMode::Absolute), MouseMode::Relative);
    assert_eq!(toggled_mode(MouseMode::Relative), MouseMode::Absolute);
}

#[test]
fn click_inside_video_enters_remote_input() {
    let mut remote = RemoteInput::new();
    assert_eq!(remote.button_pressed(MouseButton::Left, true), FocusChange::Entered);
    assert!(remote.active);
    assert_eq!(remote.pointer_mask, 1);
}

#[test]
fn click_outside_video_exits_remote_input() {
    let mut remote = RemoteInput::new();
    remote.button_pressed(MouseButton::Left, true);
    let report = remote.absolute_report(160, 90, 1_000 * MS, POINTER_MIN_INTERVAL);
    assert_eq!(report.pointer, Some((1, 160, 90)));
    assert_eq!(remote.button_pressed(MouseButton::Left, false), FocusChange::Left);
    assert!(!remote.active);
    assert_eq!(remote.pointer_mask, 0);
    assert_eq!(remote.last_pointer_sent, None);
}

#[test]
fn window_unfocused_exits_remote_input() {
    let mut remote = RemoteInput::new();
    remote.button_pressed(MouseButton::Left, true);
    assert!(remote.leave());
    assert!(!remote.active);
    assert!(!remote.leave(), "leaving twice releases only once");
}

#[test]
fn reenter_after_exit_resends_same_absolute_coordinates() {
    let mut remote = RemoteInput::new();
    let t0 = 1_000 * MS;
    remote.button_pressed(MouseButton::Left, true);
    remote.button_released(MouseButton::Left);
    assert_eq!(remote.absolute_report(160, 90, t0, POINTER_MIN_INTERVAL).pointer, Some((0, 160, 90)));
    remote.button_pressed(MouseButton::Left, false);
    remote.button_released(MouseButton::Left);
    assert!(!remote.active);
    remote.button_pressed(MouseButton::Left, true);
    remote.button_released(MouseButton::Left);
    let again = remote.absolute_report(160, 90, t0 + MS, POINTER_MIN_INTERVAL);
    assert_eq!(again.pointer, Some((0, 160, 90)));
}

#[test]
fn absolute_reports_are_throttled_and_not_repeated() {
    let mut remote = RemoteInput::new();
    let t0 = 1_000 * MS;
    remote.button_pressed(MouseButton::Left, true);
    remote.button_released(MouseButton::Left);
    assert_eq!(remote.absolute_report(10, 10, t0, POINTER_MIN_INTERVAL).pointer, Some((0, 10, 10)));
    assert_eq!(remote.absolute_report(11, 10, t0 + 10 * MS, POINTER_MIN_INTERVAL).pointer, None);
    assert_eq!(remote.last_pointer, Some((11, 10)));
    assert_eq!(
        remote.absolute_report(12, 10, t0 + 40 * MS, POINTER_MIN_INTERVAL).pointer,
        Some((0, 12, 10))
    );
    assert_eq!(remote.absolute_report(12, 10, t0 + 90 * MS, POINTER_MIN_INTERVAL).pointer, None);
    remote.button_pressed(MouseButton::Right, true);
    assert_eq!(
        remote.absolute_report(12, 10, t0 + 91 * MS, POINTER_MIN_INTERVAL).pointer,
        Some((2, 12, 10)),
        "a button change is sent at once"
    );
}

#[test]
fn wheel_steps_accumulate_and_go_out_with_the_next_report() {
    let mut remote = RemoteInput::new();
    remote.wheel_scrolled(3);
    assert_eq!(remote.wheel, 0, "no wheel without remote input");
    remote.button_pressed(MouseButton::Left, true);
    remote.wheel_scrolled(100);
    remote.wheel_scrolled(100);
    assert_eq!(remote.wheel, 127);
    let report = remote.absolute_report(1, 1, 0, POINTER_MIN_INTERVAL);
    assert_eq!(report.wheel, 127);
    assert_eq!(remote.wheel, 0);
}

#[test]
fn relative_reports_need_motion_wheel_or_button_change() {
    let mut remote = RemoteInput::new();
    remote.button_pressed(MouseButton::Left, true);
    assert_eq!(
        remote.relative_report(0, 0),
        Some(RelativeReport { mask: 1, dx: 0, dy: 0, wheel: 0 })
    );
    assert_eq!(remote.relative_report(0, 0), None);
    assert_eq!(
        remote.relative_report(3, -2),
        Some(RelativeReport { mask: 1, dx: 3, dy: -2, wheel: 0 })
    );
}

#[test]
fn key_presses_during_remote_input() {
    let mut remote = RemoteInput::new();
    assert_eq!(remote.key_pressed(KeyCode::KeyA, mods(false, false, false), false), KeyPress::Ignored);
    remote.button_pressed(MouseButton::Left, true);
    assert_eq!(remote.key_pressed(KeyCode::KeyA, mods(false, false, false), false), KeyPress::Send(0x61));
    assert_eq!(remote.key_pressed(KeyCode::KeyA, mods(false, false, false), true), KeyPress::Ignored);
    assert_eq!(remote.key_pressed(KeyCode::KanaMode, mods(false, false, false), false), KeyPress::Unsupported);
    assert_eq!(remote.key_pressed(KeyCode::KeyM, mods(true, true, false), false), KeyPress::ToggleMode);
    assert_eq!(remote.key_released(KeyCode::KeyA), Some(0x61));
    let actions = remote.modifiers_changed(mods(true, false, false));
    assert_eq!(actions, vec![KeyAction::Down(0xffe3)]);
    assert_eq!(remote.key_pressed(KeyCode::KeyK, mods(true, true, false), false), KeyPress::LeftRemote);
    assert!(!remote.active);
    assert_eq!(remote.last_modifiers, Modifiers::empty());
    assert_eq!(remote.key_released(KeyCode::KeyA), None);
}

#[test]
fn status_line_fields_follow_remote_state() {
    assert_eq!(keyboard_status(true, true), KeyboardStatus::Pasting);
    assert_eq!(keyboard_status(false, true), KeyboardStatus::Remote);
    assert_eq!(keyboard_status(false, false), KeyboardStatus::Ready);
    assert_eq!(pointer_status(MouseMode::Relative, true, Some((1, 2))), PointerStatus::Relative);
    assert_eq!(pointer_status(MouseMode::Absolute, true, Some((1, 2))), PointerStatus::At(1, 2));
    assert_eq!(pointer_status(MouseMode::Relative, false, None), PointerStatus::Ready);
}

#[test]
fn disconnect_forgets_position_but_not_buttons() {
    let mut remote = RemoteInput::new();
    remote.button_pressed(MouseButton::Left, true);
    remote.absolute_report(5, 6, 0, POINTER_MIN_INTERVAL);
    remote.disconnected();
    assert!(!remote.active);
    assert_eq!(remote.last_pointer, None);
    assert_eq!(remote.pointer_mask, 1);
}
