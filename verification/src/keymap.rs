//! Physical key codes and their X11 keysyms.
//!
//! Key codes name physical keys (USB HID style), so one table serves every
//! platform; case and shifted symbols are left to the modifier state.

use vstd::prelude::*;

verus! {

pub const XK_BACKSPACE: u32 = 0xff08;
pub const XK_TAB: u32 = 0xff09;
pub const XK_RETURN: u32 = 0xff0d;
pub const XK_ESCAPE: u32 = 0xff1b;
pub const XK_HOME: u32 = 0xff50;
pub const XK_LEFT: u32 = 0xff51;
pub const XK_UP: u32 = 0xff52;
pub const XK_RIGHT: u32 = 0xff53;
pub const XK_DOWN: u32 = 0xff54;
pub const XK_PAGE_UP: u32 = 0xff55;
pub const XK_PAGE_DOWN: u32 = 0xff56;
pub const XK_END: u32 = 0xff57;
pub const XK_INSERT: u32 = 0xff63;
pub const XK_DELETE: u32 = 0xffff;
pub const XK_SHIFT_L: u32 = 0xffe1;
pub const XK_SHIFT_R: u32 = 0xffe2;
pub const XK_CONTROL_L: u32 = 0xffe3;
pub const XK_CONTROL_R: u32 = 0xffe4;
pub const XK_CAPS_LOCK: u32 = 0xffe5;
pub const XK_ALT_L: u32 = 0xffe9;
pub const XK_ALT_R: u32 = 0xffea;
pub const XK_SUPER_L: u32 = 0xffeb;
pub const XK_SUPER_R: u32 = 0xffec;
pub const XK_PRINT: u32 = 0xff61;
pub const XK_PAUSE: u32 = 0xff13;
pub const XK_SCROLL_LOCK: u32 = 0xff14;
pub const XK_NUM_LOCK: u32 = 0xff7f;
pub const XK_MENU: u32 = 0xff67;
pub const XK_F1: u32 = 0xffbe;

/// A physical key, named after its position on a US layout.
#[derive(Clone, Copy, Debug, PartialEq, Eq, Structural)]
pub enum KeyCode {
    KeyA,
    KeyB,
    KeyC,
    KeyD,
    KeyE,
    KeyF,
    KeyG,
    KeyH,
    KeyI,
    KeyJ,
    KeyK,
    KeyL,
    KeyM,
    KeyN,
    KeyO,
    KeyP,
    KeyQ,
    KeyR,
    KeyS,
    KeyT,
    KeyU,
    KeyV,
    KeyW,
    KeyX,
    KeyY,
    KeyZ,
    Digit0,
    Digit1,
    Digit2,
    Digit3,
    Digit4,
    Digit5,
    Digit6,
    Digit7,
    Digit8,
    Digit9,
    F1,
    F2,
    F3,
    F4,
    F5,
    F6,
    F7,
    F8,
    F9,
    F10,
    F11,
    F12,
    F13,
    F14,
    F15,
    F16,
    F17,
    F18,
    F19,
    F20,
    Space,
    Minus,
    Equal,
    BracketLeft,
    BracketRight,
    Backslash,
    Semicolon,
    Quote,
    Backquote,
    Comma,
    Period,
    Slash,
    Backspace,
    Tab,
    Enter,
    Escape,
    Home,
    End,
    PageUp,
    PageDown,
    Insert,
    Delete,
    ArrowLeft,
    ArrowUp,
    ArrowRight,
    ArrowDown,
    ShiftLeft,
    ShiftRight,
    ControlLeft,
    ControlRight,
    AltLeft,
    AltRight,
    SuperLeft,
    SuperRight,
    PrintScreen,
    CapsLock,
    NumLock,
    ScrollLock,
    Pause,
    ContextMenu,
    KanaMode,
    Lang1,
    Lang2,
    IntlBackslash,
    IntlRo,
    IntlYen,
    NumpadEnter,
    Numpad0,
    Fn,
    Unidentified,
}

/// Base keysym of a physical key; `None` for keys without one.
pub open spec fn keysym_of(code: KeyCode) -> Option<u32> {
    match code {
        KeyCode::KeyA => Some(0x61),
        KeyCode::KeyB => Some(0x62),
        KeyCode::KeyC => Some(0x63),
        KeyCode::KeyD => Some(0x64),
        KeyCode::KeyE => Some(0x65),
        KeyCode::KeyF => Some(0x66),
        KeyCode::KeyG => Some(0x67),
        KeyCode::KeyH => Some(0x68),
        KeyCode::KeyI => Some(0x69),
        KeyCode::KeyJ => Some(0x6a),
        KeyCode::KeyK => Some(0x6b),
        KeyCode::KeyL => Some(0x6c),
        KeyCode::KeyM => Some(0x6d),
        KeyCode::KeyN => Some(0x6e),
        KeyCode::KeyO => Some(0x6f),
        KeyCode::KeyP => Some(0x70),
        KeyCode::KeyQ => Some(0x71),
        KeyCode::KeyR => Some(0x72),
        KeyCode::KeyS => Some(0x73),
        KeyCode::KeyT => Some(0x74),
        KeyCode::KeyU => Some(0x75),
        KeyCode::KeyV => Some(0x76),
        KeyCode::KeyW => Some(0x77),
        KeyCode::KeyX => Some(0x78),
        KeyCode::KeyY => Some(0x79),
        KeyCode::KeyZ => Some(0x7a),
        KeyCode::Digit0 => Some(0x30),
        KeyCode::Digit1 => Some(0x31),
        KeyCode::Digit2 => Some(0x32),
        KeyCode::Digit3 => Some(0x33),
        KeyCode::Digit4 => Some(0x34),
        KeyCode::Digit5 => Some(0x35),
        KeyCode::Digit6 => Some(0x36),
        KeyCode::Digit7 => Some(0x37),
        KeyCode::Digit8 => Some(0x38),
        KeyCode::Digit9 => Some(0x39),
        KeyCode::F1 => Some(0xffbe),
        KeyCode::F2 => Some(0xffbf),
        KeyCode::F3 => Some(0xffc0),
        KeyCode::F4 => Some(0xffc1),
        KeyCode::F5 => Some(0xffc2),
        KeyCode::F6 => Some(0xffc3),
        KeyCode::F7 => Some(0xffc4),
        KeyCode::F8 => Some(0xffc5),
        KeyCode::F9 => Some(0xffc6),
        KeyCode::F10 => Some(0xffc7),
        KeyCode::F11 => Some(0xffc8),
        KeyCode::F12 => Some(0xffc9),
        KeyCode::F13 => Some(0xffca),
        KeyCode::F14 => Some(0xffcb),
        KeyCode::F15 => Some(0xffcc),
        KeyCode::F16 => Some(0xffcd),
        KeyCode::F17 => Some(0xffce),
        KeyCode::F18 => Some(0xffcf),
        KeyCode::F19 => Some(0xffd0),
        KeyCode::F20 => Some(0xffd1),
        KeyCode::Space => Some(0x20),
        KeyCode::Minus => Some(0x2d),
        KeyCode::Equal => Some(0x3d),
        KeyCode::BracketLeft => Some(0x5b),
        KeyCode::BracketRight => Some(0x5d),
        KeyCode::Backslash => Some(0x5c),
        KeyCode::Semicolon => Some(0x3b),
        KeyCode::Quote => Some(0x27),
        KeyCode::Backquote => Some(0x60),
        KeyCode::Comma => Some(0x2c),
        KeyCode::Period => Some(0x2e),
        KeyCode::Slash => Some(0x2f),
        KeyCode::Backspace => Some(XK_BACKSPACE),
        KeyCode::Tab => Some(XK_TAB),
        KeyCode::Enter => Some(XK_RETURN),
        KeyCode::Escape => Some(XK_ESCAPE),
        KeyCode::Home => Some(XK_HOME),
        KeyCode::End => Some(XK_END),
        KeyCode::PageUp => Some(XK_PAGE_UP),
        KeyCode::PageDown => Some(XK_PAGE_DOWN),
        KeyCode::Insert => Some(XK_INSERT),
        KeyCode::Delete => Some(XK_DELETE),
        KeyCode::ArrowLeft => Some(XK_LEFT),
        KeyCode::ArrowUp => Some(XK_UP),
        KeyCode::ArrowRight => Some(XK_RIGHT),
        KeyCode::ArrowDown => Some(XK_DOWN),
        KeyCode::ShiftLeft => Some(XK_SHIFT_L),
        KeyCode::ShiftRight => Some(XK_SHIFT_R),
        KeyCode::ControlLeft => Some(XK_CONTROL_L),
        KeyCode::ControlRight => Some(XK_CONTROL_R),
        KeyCode::AltLeft => Some(XK_ALT_L),
        KeyCode::AltRight => Some(XK_ALT_R),
        KeyCode::SuperLeft => Some(XK_SUPER_L),
        KeyCode::SuperRight => Some(XK_SUPER_R),
        KeyCode::PrintScreen => Some(XK_PRINT),
        KeyCode::CapsLock => Some(XK_CAPS_LOCK),
        KeyCode::NumLock => Some(XK_NUM_LOCK),
        KeyCode::ScrollLock => Some(XK_SCROLL_LOCK),
        KeyCode::Pause => Some(XK_PAUSE),
        KeyCode::ContextMenu => Some(XK_MENU),
        _ => None,
    }
}

/// Maps a physical key to its base keysym (see [`keysym_of`]).
pub fn physical_code_to_keysym(code: KeyCode) -> (r: Option<u32>)
    ensures
        r == keysym_of(code),
{
    match code {
        KeyCode::KeyA => Some(0x61),
        KeyCode::KeyB => Some(0x62),
        KeyCode::KeyC => Some(0x63),
        KeyCode::KeyD => Some(0x64),
        KeyCode::KeyE => Some(0x65),
        KeyCode::KeyF => Some(0x66),
        KeyCode::KeyG => Some(0x67),
        KeyCode::KeyH => Some(0x68),
        KeyCode::KeyI => Some(0x69),
        KeyCode::KeyJ => Some(0x6a),
        KeyCode::KeyK => Some(0x6b),
        KeyCode::KeyL => Some(0x6c),
        KeyCode::KeyM => Some(0x6d),
        KeyCode::KeyN => Some(0x6e),
        KeyCode::KeyO => Some(0x6f),
        KeyCode::KeyP => Some(0x70),
        KeyCode::KeyQ => Some(0x71),
        KeyCode::KeyR => Some(0x72),
        KeyCode::KeyS => Some(0x73),
        KeyCode::KeyT => Some(0x74),
        KeyCode::KeyU => Some(0x75),
        KeyCode::KeyV => Some(0x76),
        KeyCode::KeyW => Some(0x77),
        KeyCode::KeyX => Some(0x78),
        KeyCode::KeyY => Some(0x79),
        KeyCode::KeyZ => Some(0x7a),
        KeyCode::Digit0 => Some(0x30),
        KeyCode::Digit1 => Some(0x31),
        KeyCode::Digit2 => Some(0x32),
        KeyCode::Digit3 => Some(0x33),
        KeyCode::Digit4 => Some(0x34),
        KeyCode::Digit5 => Some(0x35),
        KeyCode::Digit6 => Some(0x36),
        KeyCode::Digit7 => Some(0x37),
        KeyCode::Digit8 => Some(0x38),
        KeyCode::Digit9 => Some(0x39),
        KeyCode::F1 => Some(0xffbe),
        KeyCode::F2 => Some(0xffbf),
        KeyCode::F3 => Some(0xffc0),
        KeyCode::F4 => Some(0xffc1),
        KeyCode::F5 => Some(0xffc2),
        KeyCode::F6 => Some(0xffc3),
        KeyCode::F7 => Some(0xffc4),
        KeyCode::F8 => Some(0xffc5),
        KeyCode::F9 => Some(0xffc6),
        KeyCode::F10 => Some(0xffc7),
        KeyCode::F11 => Some(0xffc8),
        KeyCode::F12 => Some(0xffc9),
        KeyCode::F13 => Some(0xffca),
        KeyCode::F14 => Some(0xffcb),
        KeyCode::F15 => Some(0xffcc),
        KeyCode::F16 => Some(0xffcd),
        KeyCode::F17 => Some(0xffce),
        KeyCode::F18 => Some(0xffcf),
        KeyCode::F19 => Some(0xffd0),
        KeyCode::F20 => Some(0xffd1),
        KeyCode::Space => Some(0x20),
        KeyCode::Minus => Some(0x2d),
        KeyCode::Equal => Some(0x3d),
        KeyCode::BracketLeft => Some(0x5b),
        KeyCode::BracketRight => Some(0x5d),
        KeyCode::Backslash => Some(0x5c),
        KeyCode::Semicolon => Some(0x3b),
        KeyCode::Quote => Some(0x27),
        KeyCode::Backquote => Some(0x60),
        KeyCode::Comma => Some(0x2c),
        KeyCode::Period => Some(0x2e),
        KeyCode::Slash => Some(0x2f),
        KeyCode::Backspace => Some(XK_BACKSPACE),
        KeyCode::Tab => Some(XK_TAB),
        KeyCode::Enter => Some(XK_RETURN),
        KeyCode::Escape => Some(XK_ESCAPE),
        KeyCode::Home => Some(XK_HOME),
        KeyCode::End => Some(XK_END),
        KeyCode::PageUp => Some(XK_PAGE_UP),
        KeyCode::PageDown => Some(XK_PAGE_DOWN),
        KeyCode::Insert => Some(XK_INSERT),
        KeyCode::Delete => Some(XK_DELETE),
        KeyCode::ArrowLeft => Some(XK_LEFT),
        KeyCode::ArrowUp => Some(XK_UP),
        KeyCode::ArrowRight => Some(XK_RIGHT),
        KeyCode::ArrowDown => Some(XK_DOWN),
        KeyCode::ShiftLeft => Some(XK_SHIFT_L),
        KeyCode::ShiftRight => Some(XK_SHIFT_R),
        KeyCode::ControlLeft => Some(XK_CONTROL_L),
        KeyCode::ControlRight => Some(XK_CONTROL_R),
        KeyCode::AltLeft => Some(XK_ALT_L),
        KeyCode::AltRight => Some(XK_ALT_R),
        KeyCode::SuperLeft => Some(XK_SUPER_L),
        KeyCode::SuperRight => Some(XK_SUPER_R),
        KeyCode::PrintScreen => Some(XK_PRINT),
        KeyCode::CapsLock => Some(XK_CAPS_LOCK),
        KeyCode::NumLock => Some(XK_NUM_LOCK),
        KeyCode::ScrollLock => Some(XK_SCROLL_LOCK),
        KeyCode::Pause => Some(XK_PAUSE),
        KeyCode::ContextMenu => Some(XK_MENU),
        _ => None,
    }
}

/// Every key reaches the target as the X11 keysym of the same key
/// (X11 `keysymdef.h`): letters as their lower-case Latin-1 code, digits and
/// punctuation as their ASCII code, F1 to F20 as `0xffbe` to `0xffd1`, and
/// editing, navigation, modifier and lock keys as their `XK_` values. Keys
/// without a keysym of their own give none.
pub proof fn lemma_x11_keysyms()
    ensures
        keysym_of(KeyCode::KeyA) == Some(0x61u32),
        keysym_of(KeyCode::KeyB) == Some(0x62u32),
        keysym_of(KeyCode::KeyC) == Some(0x63u32),
        keysym_of(KeyCode::KeyD) == Some(0x64u32),
        keysym_of(KeyCode::KeyE) == Some(0x65u32),
        keysym_of(KeyCode::KeyF) == Some(0x66u32),
        keysym_of(KeyCode::KeyG) == Some(0x67u32),
        keysym_of(KeyCode::KeyH) == Some(0x68u32),
        keysym_of(KeyCode::KeyI) == Some(0x69u32),
        keysym_of(KeyCode::KeyJ) == Some(0x6au32),
        keysym_of(KeyCode::KeyK) == Some(0x6bu32),
        keysym_of(KeyCode::KeyL) == Some(0x6cu32),
        keysym_of(KeyCode::KeyM) == Some(0x6du32),
        keysym_of(KeyCode::KeyN) == Some(0x6eu32),
        keysym_of(KeyCode::KeyO) == Some(0x6fu32),
        keysym_of(KeyCode::KeyP) == Some(0x70u32),
        keysym_of(KeyCode::KeyQ) == Some(0x71u32),
        keysym_of(KeyCode::KeyR) == Some(0x72u32),
        keysym_of(KeyCode::KeyS) == Some(0x73u32),
        keysym_of(KeyCode::KeyT) == Some(0x74u32),
        keysym_of(KeyCode::KeyU) == Some(0x75u32),
        keysym_of(KeyCode::KeyV) == Some(0x76u32),
        keysym_of(KeyCode::KeyW) == Some(0x77u32),
        keysym_of(KeyCode::KeyX) == Some(0x78u32),
        keysym_of(KeyCode::KeyY) == Some(0x79u32),
        keysym_of(KeyCode::KeyZ) == Some(0x7au32),
        keysym_of(KeyCode::Digit0) == Some(0x30u32),
        keysym_of(KeyCode::Digit1) == Some(0x31u32),
        keysym_of(KeyCode::Digit2) == Some(0x32u32),
        keysym_of(KeyCode::Digit3) == Some(0x33u32),
        keysym_of(KeyCode::Digit4) == Some(0x34u32),
        keysym_of(KeyCode::Digit5) == Some(0x35u32),
        keysym_of(KeyCode::Digit6) == Some(0x36u32),
        keysym_of(KeyCode::Digit7) == Some(0x37u32),
        keysym_of(KeyCode::Digit8) == Some(0x38u32),
        keysym_of(KeyCode::Digit9) == Some(0x39u32),
        keysym_of(KeyCode::F1) == Some(0xffbeu32),
        keysym_of(KeyCode::F2) == Some(0xffbfu32),
        keysym_of(KeyCode::F3) == Some(0xffc0u32),
        keysym_of(KeyCode::F4) == Some(0xffc1u32),
        keysym_of(KeyCode::F5) == Some(0xffc2u32),
        keysym_of(KeyCode::F6) == Some(0xffc3u32),
        keysym_of(KeyCode::F7) == Some(0xffc4u32),
        keysym_of(KeyCode::F8) == Some(0xffc5u32),
        keysym_of(KeyCode::F9) == Some(0xffc6u32),
        keysym_of(KeyCode::F10) == Some(0xffc7u32),
        keysym_of(KeyCode::F11) == Some(0xffc8u32),
        keysym_of(KeyCode::F12) == Some(0xffc9u32),
        keysym_of(KeyCode::F13) == Some(0xffcau32),
        keysym_of(KeyCode::F14) == Some(0xffcbu32),
        keysym_of(KeyCode::F15) == Some(0xffccu32),
        keysym_of(KeyCode::F16) == Some(0xffcdu32),
        keysym_of(KeyCode::F17) == Some(0xffceu32),
        keysym_of(KeyCode::F18) == Some(0xffcfu32),
        keysym_of(KeyCode::F19) == Some(0xffd0u32),
        keysym_of(KeyCode::F20) == Some(0xffd1u32),
        keysym_of(KeyCode::Space) == Some(0x20u32),
        keysym_of(KeyCode::Minus) == Some(0x2du32),
        keysym_of(KeyCode::Equal) == Some(0x3du32),
        keysym_of(KeyCode::BracketLeft) == Some(0x5bu32),
        keysym_of(KeyCode::BracketRight) == Some(0x5du32),
        keysym_of(KeyCode::Backslash) == Some(0x5cu32),
        keysym_of(KeyCode::Semicolon) == Some(0x3bu32),
        keysym_of(KeyCode::Quote) == Some(0x27u32),
        keysym_of(KeyCode::Backquote) == Some(0x60u32),
        keysym_of(KeyCode::Comma) == Some(0x2cu32),
        keysym_of(KeyCode::Period) == Some(0x2eu32),
        keysym_of(KeyCode::Slash) == Some(0x2fu32),
        keysym_of(KeyCode::Backspace) == Some(0xff08u32),
        keysym_of(KeyCode::Tab) == Some(0xff09u32),
        keysym_of(KeyCode::Enter) == Some(0xff0du32),
        keysym_of(KeyCode::Escape) == Some(0xff1bu32),
        keysym_of(KeyCode::Home) == Some(0xff50u32),
        keysym_of(KeyCode::End) == Some(0xff57u32),
        keysym_of(KeyCode::PageUp) == Some(0xff55u32),
        keysym_of(KeyCode::PageDown) == Some(0xff56u32),
        keysym_of(KeyCode::Insert) == Some(0xff63u32),
        keysym_of(KeyCode::Delete) == Some(0xffffu32),
        keysym_of(KeyCode::ArrowLeft) == Some(0xff51u32),
        keysym_of(KeyCode::ArrowUp) == Some(0xff52u32),
        keysym_of(KeyCode::ArrowRight) == Some(0xff53u32),
        keysym_of(KeyCode::ArrowDown) == Some(0xff54u32),
        keysym_of(KeyCode::ShiftLeft) == Some(0xffe1u32),
        keysym_of(KeyCode::ShiftRight) == Some(0xffe2u32),
        keysym_of(KeyCode::ControlLeft) == Some(0xffe3u32),
        keysym_of(KeyCode::ControlRight) == Some(0xffe4u32),
        keysym_of(KeyCode::AltLeft) == Some(0xffe9u32),
        keysym_of(KeyCode::AltRight) == Some(0xffeau32),
        keysym_of(KeyCode::SuperLeft) == Some(0xffebu32),
        keysym_of(KeyCode::SuperRight) == Some(0xffecu32),
        keysym_of(KeyCode::PrintScreen) == Some(0xff61u32),
        keysym_of(KeyCode::CapsLock) == Some(0xffe5u32),
        keysym_of(KeyCode::NumLock) == Some(0xff7fu32),
        keysym_of(KeyCode::ScrollLock) == Some(0xff14u32),
        keysym_of(KeyCode::Pause) == Some(0xff13u32),
        keysym_of(KeyCode::ContextMenu) == Some(0xff67u32),
        keysym_of(KeyCode::KanaMode) is None,
        keysym_of(KeyCode::Lang1) is None,
        keysym_of(KeyCode::Lang2) is None,
        keysym_of(KeyCode::IntlBackslash) is None,
        keysym_of(KeyCode::IntlRo) is None,
        keysym_of(KeyCode::IntlYen) is None,
        keysym_of(KeyCode::NumpadEnter) is None,
        keysym_of(KeyCode::Numpad0) is None,
        keysym_of(KeyCode::Fn) is None,
        keysym_of(KeyCode::Unidentified) is None,
{
}

} // verus!
