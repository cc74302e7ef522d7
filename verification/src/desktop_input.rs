//! Key and pointer handling of the immediate-mode desktop console: keys are
//! logical (layout-aware), so Shift decides letter case and digit symbols.

use vstd::prelude::*;

verus! {

pub const XK_BACKSPACE: u32 = 0xff08;
pub const XK_TAB: u32 = 0xff09;
pub const XK_RETURN: u32 = 0xff0d;
pub const XK_ESCAPE: u32 = 0xff1b;
pub const XK_HOME: u32 = 0xff50;
pub const XK_LEFT: u32 = 0xff51;
pub const XK_UP: u32 = 0xff52;
pub const XK_RIGHT: u32 = 0xff53;
pub const XK_DOWN: u32 = 0xff54;
pub const XK_PAGE_UP: u32 = 0xff55;
pub const XK_PAGE_DOWN: u32 = 0xff56;
pub const XK_END: u32 = 0xff57;
pub const XK_INSERT: u32 = 0xff63;
pub const XK_DELETE: u32 = 0xffff;
pub const XK_SHIFT_L: u32 = 0xffe1;
pub const XK_CONTROL_L: u32 = 0xffe3;
pub const XK_ALT_L: u32 = 0xffe9;
pub const XK_SPACE: u32 = 0x20;
pub const XK_F1: u32 = 0xffbe;

/// A key going down or up, by keysym.
#[derive(Clone, Copy, Debug, PartialEq, Eq, Structural)]
pub enum KeyAction {
    Down(u32),
    Up(u32),
}

/// Keys offered from the console's special-key menu; `F(n)` is function key n.
#[derive(Clone, Copy, Debug, PartialEq, Eq, Structural)]
pub enum SpecialKey {
    CtrlAltDel,
    Escape,
    F(u8),
    Insert,
    Delete,
    Home,
    End,
    PageUp,
    PageDown,
    ArrowLeft,
    ArrowUp,
    ArrowRight,
    ArrowDown,
}

/// A single key tap.
pub open spec fn tap(keysym: u32) -> Seq<KeyAction> {
    seq![KeyAction::Down(keysym), KeyAction::Up(keysym)]
}

/// Key actions of a special key: Ctrl+Alt+Del holds the modifiers around
/// Delete and releases them in reverse order; `F(n)` taps function key n
/// (`F(0)` counts as F1); every other key is a single tap.
pub open spec fn special_sequence(key: SpecialKey) -> Seq<KeyAction> {
    match key {
        SpecialKey::CtrlAltDel => seq![
            KeyAction::Down(XK_CONTROL_L),
            KeyAction::Down(XK_ALT_L),
            KeyAction::Down(XK_DELETE),
            KeyAction::Up(XK_DELETE),
            KeyAction::Up(XK_ALT_L),
            KeyAction::Up(XK_CONTROL_L),
        ],
        SpecialKey::Escape => tap(XK_ESCAPE),
        SpecialKey::F(n) => tap((XK_F1 + if n == 0 { 0 } else { n - 1 }) as u32),
        SpecialKey::Insert => tap(XK_INSERT),
        SpecialKey::Delete => tap(XK_DELETE),
        SpecialKey::Home => tap(XK_HOME),
        SpecialKey::End => tap(XK_END),
        SpecialKey::PageUp => tap(XK_PAGE_UP),
        SpecialKey::PageDown => tap(XK_PAGE_DOWN),
        SpecialKey::ArrowLeft => tap(XK_LEFT),
        SpecialKey::ArrowUp => tap(XK_UP),
        SpecialKey::ArrowRight => tap(XK_RIGHT),
        SpecialKey::ArrowDown => tap(XK_DOWN),
    }
}

fn press(keysym: u32) -> (r: Vec<KeyAction>)
    ensures
        r@ == tap(keysym),
{
    let mut v: Vec<KeyAction> = Vec::new();
    v.push(KeyAction::Down(keysym));
    v.push(KeyAction::Up(keysym));
    v
}

/// The key actions that send a special key (see [`special_sequence`]).
pub fn special_key_sequence(key: SpecialKey) -> (r: Vec<KeyAction>)
    ensures
        r@ == special_sequence(key),
{
    match key {
        SpecialKey::CtrlAltDel => {
            let mut v: Vec<KeyAction> = Vec::new();
            v.push(KeyAction::Down(XK_CONTROL_L));
            v.push(KeyAction::Down(XK_ALT_L));
            v.push(KeyAction::Down(XK_DELETE));
            v.push(KeyAction::Up(XK_DELETE));
            v.push(KeyAction::Up(XK_ALT_L));
            v.push(KeyAction::Up(XK_CONTROL_L));
            assert(v@ =~= special_sequence(key));
            v
        },
        SpecialKey::Escape => press(XK_ESCAPE),
        SpecialKey::F(n) => {
            let offset: u32 = if n == 0 { 0 } else { (n - 1) as u32 };
            press(XK_F1 + offset)
        },
        SpecialKey::Insert => press(XK_INSERT),
        SpecialKey::Delete => press(XK_DELETE),
        SpecialKey::Home => press(XK_HOME),
        SpecialKey::End => press(XK_END),
        SpecialKey::PageUp => press(XK_PAGE_UP),
        SpecialKey::PageDown => press(XK_PAGE_DOWN),
        SpecialKey::ArrowLeft => press(XK_LEFT),
        SpecialKey::ArrowUp => press(XK_UP),
        SpecialKey::ArrowRight => press(XK_RIGHT),
        SpecialKey::ArrowDown => press(XK_DOWN),
    }
}

/// A logical key of the immediate-mode toolkit.
#[derive(Clone, Copy, Debug, PartialEq, Eq, Structural)]
pub enum KeyboardKey {
    Backspace,
    Enter,
    Space,
    Tab,
    Escape,
    Delete,
    Insert,
    Home,
    End,
    PageUp,
    PageDown,
    ArrowLeft,
    ArrowRight,
    ArrowUp,
    ArrowDown,
    A,
    B,
    C,
    D,
    E,
    F,
    G,
    H,
    I,
    J,
    K,
    L,
    M,
    N,
    O,
    P,
    Q,
    R,
    S,
    T,
    U,
    V,
    W,
    X,
    Y,
    Z,
    Num0,
    Num1,
    Num2,
    Num3,
    Num4,
    Num5,
    Num6,
    Num7,
    Num8,
    Num9,
    F1,
    F2,
    F3,
    F4,
    F5,
    F6,
    F7,
    F8,
    F9,
    F10,
    F11,
    F12,
    F13,
    F14,
    F15,
    F16,
    F17,
    F18,
    F19,
    F20,
    Minus,
    Plus,
    Equals,
    Comma,
    Period,
    Semicolon,
    Colon,
    Slash,
    Backslash,
    Questionmark,
    OpenBracket,
    CloseBracket,
    Backtick,
    Copy,
    Cut,
    Paste,
}

/// Modifier state of the immediate-mode toolkit.
#[derive(Clone, Copy, Debug, Default, PartialEq, Eq, Structural)]
pub struct KeyModifiers {
    pub alt: bool,
    pub ctrl: bool,
    pub shift: bool,
    pub mac_cmd: bool,
    pub command: bool,
}

/// Keysym of a logical key: letters follow Shift for their case, digits give
/// their shifted symbol (`)!@#$%^&*(`) under Shift, control keys use the X11
/// control keysyms; `None` for keys that are not sent.
pub open spec fn keysym_for(key: KeyboardKey, shift: bool) -> Option<u32> {
    match key {
        KeyboardKey::Backspace => Some(XK_BACKSPACE),
        KeyboardKey::Enter => Some(XK_RETURN),
        KeyboardKey::Space => Some(XK_SPACE),
        KeyboardKey::Tab => Some(XK_TAB),
        KeyboardKey::Escape => Some(XK_ESCAPE),
        KeyboardKey::Delete => Some(XK_DELETE),
        KeyboardKey::Insert => Some(XK_INSERT),
        KeyboardKey::Home => Some(XK_HOME),
        KeyboardKey::End => Some(XK_END),
        KeyboardKey::PageUp => Some(XK_PAGE_UP),
        KeyboardKey::PageDown => Some(XK_PAGE_DOWN),
        KeyboardKey::ArrowLeft => Some(XK_LEFT),
        KeyboardKey::ArrowRight => Some(XK_RIGHT),
        KeyboardKey::ArrowUp => Some(XK_UP),
        KeyboardKey::ArrowDown => Some(XK_DOWN),
        KeyboardKey::A => Some(if shift { 0x41 } else { 0x61 }),
        KeyboardKey::B => Some(if shift { 0x42 } else { 0x62 }),
        KeyboardKey::C => Some(if shift { 0x43 } else { 0x63 }),
        KeyboardKey::D => Some(if shift { 0x44 } else { 0x64 }),
        KeyboardKey::E => Some(if shift { 0x45 } else { 0x65 }),
        KeyboardKey::F => Some(if shift { 0x46 } else { 0x66 }),
        KeyboardKey::G => Some(if shift { 0x47 } else { 0x67 }),
        KeyboardKey::H => Some(if shift { 0x48 } else { 0x68 }),
        KeyboardKey::I => Some(if shift { 0x49 } else { 0x69 }),
        KeyboardKey::J => Some(if shift { 0x4a } else { 0x6a }),
        KeyboardKey::K => Some(if shift { 0x4b } else { 0x6b }),
        KeyboardKey::L => Some(if shift { 0x4c } else { 0x6c }),
        KeyboardKey::M => Some(if shift { 0x4d } else { 0x6d }),
        KeyboardKey::N => Some(if shift { 0x4e } else { 0x6e }),
        KeyboardKey::O => Some(if shift { 0x4f } else { 0x6f }),
        KeyboardKey::P => Some(if shift { 0x50 } else { 0x70 }),
        KeyboardKey::Q => Some(if shift { 0x51 } else { 0x71 }),
        KeyboardKey::R => Some(if shift { 0x52 } else { 0x72 }),
        KeyboardKey::S => Some(if shift { 0x53 } else { 0x73 }),
        KeyboardKey::T => Some(if shift { 0x54 } else { 0x74 }),
        KeyboardKey::U => Some(if shift { 0x55 } else { 0x75 }),
        KeyboardKey::V => Some(if shift { 0x56 } else { 0x76 }),
        KeyboardKey::W => Some(if shift { 0x57 } else { 0x77 }),
        KeyboardKey::X => Some(if shift { 0x58 } else { 0x78 }),
        KeyboardKey::Y => Some(if shift { 0x59 } else { 0x79 }),
        KeyboardKey::Z => Some(if shift { 0x5a } else { 0x7a }),
        KeyboardKey::Num0 => Some(if shift { 0x29 } else { 0x30 }),
        KeyboardKey::Num1 => Some(if shift { 0x21 } else { 0x31 }),
        KeyboardKey::Num2 => Some(if shift { 0x40 } else { 0x32 }),
        KeyboardKey::Num3 => Some(if shift { 0x23 } else { 0x33 }),
        KeyboardKey::Num4 => Some(if shift { 0x24 } else { 0x34 }),
        KeyboardKey::Num5 => Some(if shift { 0x25 } else { 0x35 }),
        KeyboardKey::Num6 => Some(if shift { 0x5e } else { 0x36 }),
        KeyboardKey::Num7 => Some(if shift { 0x26 } else { 0x37 }),
        KeyboardKey::Num8 => Some(if shift { 0x2a } else { 0x38 }),
        KeyboardKey::Num9 => Some(if shift { 0x28 } else { 0x39 }),
        KeyboardKey::F1 => Some(0xffbe),
        KeyboardKey::F2 => Some(0xffbf),
        KeyboardKey::F3 => Some(0xffc0),
        KeyboardKey::F4 => Some(0xffc1),
        KeyboardKey::F5 => Some(0xffc2),
        KeyboardKey::F6 => Some(0xffc3),
        KeyboardKey::F7 => Some(0xffc4),
        KeyboardKey::F8 => Some(0xffc5),
        KeyboardKey::F9 => Some(0xffc6),
        KeyboardKey::F10 => Some(0xffc7),
        KeyboardKey::F11 => Some(0xffc8),
        KeyboardKey::F12 => Some(0xffc9),
        KeyboardKey::F13 => Some(0xffca),
        KeyboardKey::F14 => Some(0xffcb),
        KeyboardKey::F15 => Some(0xffcc),
        KeyboardKey::F16 => Some(0xffcd),
        KeyboardKey::F17 => Some(0xffce),
        KeyboardKey::F18 => Some(0xffcf),
        KeyboardKey::F19 => Some(0xffd0),
        KeyboardKey::F20 => Some(0xffd1),
        _ => None,
    }
}

/// Maps a logical key to its keysym (see [`keysym_for`]).
pub fn egui_key_to_keysym(key: KeyboardKey, modifiers: KeyModifiers) -> (r: Option<u32>)
    ensures
        r == keysym_for(key, modifiers.shift),
{
    let shift = modifiers.shift;
    match key {
        KeyboardKey::Backspace => Some(XK_BACKSPACE),
        KeyboardKey::Enter => Some(XK_RETURN),
        KeyboardKey::Space => Some(XK_SPACE),
        KeyboardKey::Tab => Some(XK_TAB),
        KeyboardKey::Escape => Some(XK_ESCAPE),
        KeyboardKey::Delete => Some(XK_DELETE),
        KeyboardKey::Insert => Some(XK_INSERT),
        KeyboardKey::Home => Some(XK_HOME),
        KeyboardKey::End => Some(XK_END),
        KeyboardKey::PageUp => Some(XK_PAGE_UP),
        KeyboardKey::PageDown => Some(XK_PAGE_DOWN),
        KeyboardKey::ArrowLeft => Some(XK_LEFT),
        KeyboardKey::ArrowRight => Some(XK_RIGHT),
        KeyboardKey::ArrowUp => Some(XK_UP),
        KeyboardKey::ArrowDown => Some(XK_DOWN),
        KeyboardKey::A => Some(if shift { 0x41 } else { 0x61 }),
        KeyboardKey::B => Some(if shift { 0x42 } else { 0x62 }),
        KeyboardKey::C => Some(if shift { 0x43 } else { 0x63 }),
        KeyboardKey::D => Some(if shift { 0x44 } else { 0x64 }),
        KeyboardKey::E => Some(if shift { 0x45 } else { 0x65 }),
        KeyboardKey::F => Some(if shift { 0x46 } else { 0x66 }),
        KeyboardKey::G => Some(if shift { 0x47 } else { 0x67 }),
        KeyboardKey::H => Some(if shift { 0x48 } else { 0x68 }),
        KeyboardKey::I => Some(if shift { 0x49 } else { 0x69 }),
        KeyboardKey::J => Some(if shift { 0x4a } else { 0x6a }),
        KeyboardKey::K => Some(if shift { 0x4b } else { 0x6b }),
        KeyboardKey::L => Some(if shift { 0x4c } else { 0x6c }),
        KeyboardKey::M => Some(if shift { 0x4d } else { 0x6d }),
        KeyboardKey::N => Some(if shift { 0x4e } else { 0x6e }),
        KeyboardKey::O => Some(if shift { 0x4f } else { 0x6f }),
        KeyboardKey::P => Some(if shift { 0x50 } else { 0x70 }),
        KeyboardKey::Q => Some(if shift { 0x51 } else { 0x71 }),
        KeyboardKey::R => Some(if shift { 0x52 } else { 0x72 }),
        KeyboardKey::S => Some(if shift { 0x53 } else { 0x73 }),
        KeyboardKey::T => Some(if shift { 0x54 } else { 0x74 }),
        KeyboardKey::U => Some(if shift { 0x55 } else { 0x75 }),
        KeyboardKey::V => Some(if shift { 0x56 } else { 0x76 }),
        KeyboardKey::W => Some(if shift { 0x57 } else { 0x77 }),
        KeyboardKey::X => Some(if shift { 0x58 } else { 0x78 }),
        KeyboardKey::Y => Some(if shift { 0x59 } else { 0x79 }),
        KeyboardKey::Z => Some(if shift { 0x5a } else { 0x7a }),
        KeyboardKey::Num0 => Some(if shift { 0x29 } else { 0x30 }),
        KeyboardKey::Num1 => Some(if shift { 0x21 } else { 0x31 }),
        KeyboardKey::Num2 => Some(if shift { 0x40 } else { 0x32 }),
        KeyboardKey::Num3 => Some(if shift { 0x23 } else { 0x33 }),
        KeyboardKey::Num4 => Some(if shift { 0x24 } else { 0x34 }),
        KeyboardKey::Num5 => Some(if shift { 0x25 } else { 0x35 }),
        KeyboardKey::Num6 => Some(if shift { 0x5e } else { 0x36 }),
        KeyboardKey::Num7 => Some(if shift { 0x26 } else { 0x37 }),
        KeyboardKey::Num8 => Some(if shift { 0x2a } else { 0x38 }),
        KeyboardKey::Num9 => Some(if shift { 0x28 } else { 0x39 }),
        KeyboardKey::F1 => Some(0xffbe),
        KeyboardKey::F2 => Some(0xffbf),
        KeyboardKey::F3 => Some(0xffc0),
        KeyboardKey::F4 => Some(0xffc1),
        KeyboardKey::F5 => Some(0xffc2),
        KeyboardKey::F6 => Some(0xffc3),
        KeyboardKey::F7 => Some(0xffc4),
        KeyboardKey::F8 => Some(0xffc5),
        KeyboardKey::F9 => Some(0xffc6),
        KeyboardKey::F10 => Some(0xffc7),
        KeyboardKey::F11 => Some(0xffc8),
        KeyboardKey::F12 => Some(0xffc9),
        KeyboardKey::F13 => Some(0xffca),
        KeyboardKey::F14 => Some(0xffcb),
        KeyboardKey::F15 => Some(0xffcc),
        KeyboardKey::F16 => Some(0xffcd),
        KeyboardKey::F17 => Some(0xffce),
        KeyboardKey::F18 => Some(0xffcf),
        KeyboardKey::F19 => Some(0xffd0),
        KeyboardKey::F20 => Some(0xffd1),
        _ => None,
    }
}

/// The action for one modifier: pressed since last time, released since last
/// time, or nothing.
pub open spec fn modifier_step(previous: bool, current: bool, keysym: u32) -> Seq<KeyAction> {
    if !previous && current {
        seq![KeyAction::Down(keysym)]
    } else if previous && !current {
        seq![KeyAction::Up(keysym)]
    } else {
        Seq::empty()
    }
}

/// Modifier changes in the fixed order Shift, Ctrl, Alt.
pub open spec fn modifier_changes(previous: KeyModifiers, current: KeyModifiers) -> Seq<KeyAction> {
    modifier_step(previous.shift, current.shift, XK_SHIFT_L) + modifier_step(
        previous.ctrl,
        current.ctrl,
        XK_CONTROL_L,
    ) + modifier_step(previous.alt, current.alt, XK_ALT_L)
}

/// Appends the action for one modifier change (see [`modifier_step`]).
pub fn diff_modifier(previous: bool, current: bool, keysym: u32, actions: &mut Vec<KeyAction>)
    ensures
        final(actions)@ == old(actions)@ + modifier_step(previous, current, keysym),
{
    if !previous && current {
        actions.push(KeyAction::Down(keysym));
    } else if previous && !current {
        actions.push(KeyAction::Up(keysym));
    }
    assert(final(actions)@ =~= old(actions)@ + modifier_step(previous, current, keysym));
}

/// Key actions that bring the target's modifiers from `previous` to
/// `current` (see [`modifier_changes`]).
pub fn modifier_diff(previous: KeyModifiers, current: KeyModifiers) -> (r: Vec<KeyAction>)
    ensures
        r@ == modifier_changes(previous, current),
{
    let mut actions: Vec<KeyAction> = Vec::new();
    diff_modifier(previous.shift, current.shift, XK_SHIFT_L, &mut actions);
    diff_modifier(previous.ctrl, current.ctrl, XK_CONTROL_L, &mut actions);
    diff_modifier(previous.alt, current.alt, XK_ALT_L, &mut actions);
    assert(actions@ =~= modifier_changes(previous, current));
    actions
}

/// Which pointer buttons the toolkit reports as held this frame.
#[derive(Clone, Copy, Debug, Default, PartialEq, Eq, Structural)]
pub struct HeldButtons {
    pub primary: bool,
    pub secondary: bool,
    pub middle: bool,
    pub any_down: bool,
}

/// Button mask of this frame: primary 1, secondary 2, middle 4; when no
/// known button is reported but some button is still held, the previous mask
/// is kept so that a brief gap in button events releases nothing.
pub open spec fn button_mask(held: HeldButtons, previous_mask: u8) -> u8 {
    let mask = (if held.primary { 1u8 } else { 0u8 }) | (if held.secondary { 2u8 } else { 0u8 }) | (
    if held.middle {
        4u8
    } else {
        0u8
    });
    if mask == 0 && previous_mask != 0 && held.any_down {
        previous_mask
    } else {
        mask
    }
}

/// The pointer button mask to send (see [`button_mask`]).
pub fn pointer_button_mask(held: HeldButtons, previous_mask: u8) -> (r: u8)
    ensures
        r == button_mask(held, previous_mask),
{
    let primary: u8 = if held.primary { 1u8 } else { 0u8 };
    let secondary: u8 = if held.secondary { 2u8 } else { 0u8 };
    let middle: u8 = if held.middle { 4u8 } else { 0u8 };
    let mut mask: u8 = primary | secondary | middle;
    if mask == 0 && previous_mask != 0 && held.any_down {
        mask = previous_mask;
    }
    mask
}

/// Pointer input goes to the target while the video has focus, and also while
/// a button is (or was, last frame) held, so a drag that leaves the window
/// completes; mere hovering sends nothing.
pub fn pointer_active(focused: bool, mask: u8, previous_mask: u8) -> (r: bool)
    ensures
        r == (focused || mask != 0 || previous_mask != 0),
{
    focused || mask != 0 || previous_mask != 0
}

/// Which navigation keys stay with the video panel instead of moving focus.
#[derive(Clone, Copy, Debug, PartialEq, Eq, Structural)]
pub struct EventFilter {
    pub tab: bool,
    pub horizontal_arrows: bool,
    pub vertical_arrows: bool,
    pub escape: bool,
}

/// In remote input Tab, the arrows and Escape all stay with the video panel.
pub fn remote_focus_filter() -> (r: EventFilter)
    ensures
        r.tab && r.horizontal_arrows && r.vertical_arrows && r.escape,
{
    EventFilter { tab: true, horizontal_arrows: true, vertical_arrows: true, escape: true }
}

/// An input event of the immediate-mode toolkit, as far as shortcuts care.
#[derive(Clone, Copy, Debug, PartialEq, Eq, Structural)]
pub enum InputEvent {
    Key { key: KeyboardKey, pressed: bool, repeat: bool, modifiers: KeyModifiers },
    Other,
}

/// A fresh press of `key` with Ctrl and Alt held.
pub open spec fn is_ctrl_alt_press(event: InputEvent, key: KeyboardKey) -> bool {
    event matches InputEvent::Key { key: k, pressed, repeat, modifiers } && k == key && pressed
        && !repeat && modifiers.ctrl && modifiers.alt
}

/// Ctrl+Alt+K leaves remote input locally; it is not forwarded.
pub fn is_remote_exit_combo(event: &InputEvent) -> (r: bool)
    ensures
        r == is_ctrl_alt_press(*event, KeyboardKey::K),
{
    match event {
        InputEvent::Key { key, pressed, repeat, modifiers } => *key == KeyboardKey::K && *pressed
            && !*repeat && modifiers.ctrl && modifiers.alt,
        InputEvent::Other => false,
    }
}

/// Ctrl+Alt+M switches between absolute and relative mouse; it is not forwarded.
pub fn is_mode_toggle_combo(event: &InputEvent) -> (r: bool)
    ensures
        r == is_ctrl_alt_press(*event, KeyboardKey::M),
{
    match event {
        InputEvent::Key { key, pressed, repeat, modifiers } => *key == KeyboardKey::M && *pressed
            && !*repeat && modifiers.ctrl && modifiers.alt,
        InputEvent::Other => false,
    }
}

/// Key-down actions for `keys`, in order.
pub open spec fn presses(keys: Seq<u32>) -> Seq<KeyAction> {
    keys.map_values(|k: u32| KeyAction::Down(k))
}

/// Key-up actions for `keys`, in order.
pub open spec fn releases(keys: Seq<u32>) -> Seq<KeyAction> {
    keys.map_values(|k: u32| KeyAction::Up(k))
}

/// The opposite action on the same key.
pub open spec fn flip(action: KeyAction) -> KeyAction {
    match action {
        KeyAction::Down(k) => KeyAction::Up(k),
        KeyAction::Up(k) => KeyAction::Down(k),
    }
}

/// The keys a special key holds down, in the order they go down.
pub open spec fn chord(key: SpecialKey) -> Seq<u32> {
    match key {
        SpecialKey::CtrlAltDel => seq![XK_CONTROL_L, XK_ALT_L, XK_DELETE],
        SpecialKey::Escape => seq![XK_ESCAPE],
        SpecialKey::F(n) => seq![(XK_F1 + if n == 0 { 0 } else { n - 1 }) as u32],
        SpecialKey::Insert => seq![XK_INSERT],
        SpecialKey::Delete => seq![XK_DELETE],
        SpecialKey::Home => seq![XK_HOME],
        SpecialKey::End => seq![XK_END],
        SpecialKey::PageUp => seq![XK_PAGE_UP],
        SpecialKey::PageDown => seq![XK_PAGE_DOWN],
        SpecialKey::ArrowLeft => seq![XK_LEFT],
        SpecialKey::ArrowUp => seq![XK_UP],
        SpecialKey::ArrowRight => seq![XK_RIGHT],
        SpecialKey::ArrowDown => seq![XK_DOWN],
    }
}

/// A special key presses its chord in order and releases it in reverse
/// order, so that nothing stays held on the target.
pub proof fn lemma_special_sequence_releases_in_reverse(key: SpecialKey)
    ensures
        special_sequence(key) == presses(chord(key)) + releases(chord(key).reverse()),
{
    assert(special_sequence(key) =~= presses(chord(key)) + releases(chord(key).reverse()));
}

/// Unchanged modifiers send nothing.
pub proof fn lemma_modifier_changes_none(m: KeyModifiers)
    ensures
        modifier_changes(m, m).len() == 0,
{
    assert(modifier_changes(m, m) =~= Seq::<KeyAction>::empty());
}

/// Each action turned into its opposite.
pub open spec fn flipped(actions: Seq<KeyAction>) -> Seq<KeyAction> {
    actions.map_values(|x: KeyAction| flip(x))
}

proof fn lemma_step_undo(previous: bool, current: bool, keysym: u32)
    ensures
        modifier_step(current, previous, keysym) == flipped(modifier_step(previous, current, keysym)),
{
    assert(modifier_step(current, previous, keysym) =~= flipped(
        modifier_step(previous, current, keysym),
    ));
}

proof fn lemma_flipped_add(x: Seq<KeyAction>, y: Seq<KeyAction>)
    ensures
        flipped(x + y) == flipped(x) + flipped(y),
{
    assert(flipped(x + y) =~= flipped(x) + flipped(y));
}

/// Going back from `b` to `a` sends the opposite of each action that went
/// from `a` to `b`, in the same order.
pub proof fn lemma_modifier_changes_undo(a: KeyModifiers, b: KeyModifiers)
    ensures
        modifier_changes(b, a) == flipped(modifier_changes(a, b)),
{
    lemma_step_undo(a.shift, b.shift, XK_SHIFT_L);
    lemma_step_undo(a.ctrl, b.ctrl, XK_CONTROL_L);
    lemma_step_undo(a.alt, b.alt, XK_ALT_L);
    lemma_flipped_add(modifier_step(a.shift, b.shift, XK_SHIFT_L), modifier_step(a.ctrl, b.ctrl, XK_CONTROL_L));
    lemma_flipped_add(modifier_step(a.shift, b.shift, XK_SHIFT_L) + modifier_step(a.ctrl, b.ctrl, XK_CONTROL_L), modifier_step(a.alt, b.alt, XK_ALT_L));
}

/// Each held button reaches the target as its own bit: the primary button
/// as 1, the secondary (right) button as 2 and the middle button as 4, and
/// no other bit is set. With none of them reported the mask is 0, unless a
/// button is still down and one was held last frame, when the previous mask
/// is kept.
pub proof fn lemma_buttons_own_bits(held: HeldButtons, previous_mask: u8)
    ensures
        (held.primary || held.secondary || held.middle) ==> {
            let m = button_mask(held, previous_mask);
            &&& (m & 1 == 1) == held.primary
            &&& (m & 2 == 2) == held.secondary
            &&& (m & 4 == 4) == held.middle
            &&& m < 8
        },
        !(held.primary || held.secondary || held.middle) && (previous_mask == 0 || !held.any_down)
            ==> button_mask(held, previous_mask) == 0,
        !(held.primary || held.secondary || held.middle) && previous_mask != 0 && held.any_down
            ==> button_mask(held, previous_mask) == previous_mask,
{
    let p: u8 = if held.primary { 1u8 } else { 0u8 };
    let s: u8 = if held.secondary { 2u8 } else { 0u8 };
    let m: u8 = if held.middle { 4u8 } else { 0u8 };
    assert((p == 0 || p == 1) && (s == 0 || s == 2) && (m == 0 || m == 4) ==> {
        let x = p | s | m;
        &&& (x & 1 == 1) == (p == 1)
        &&& (x & 2 == 2) == (s == 2)
        &&& (x & 4 == 4) == (m == 4)
        &&& x < 8
        &&& (x == 0) == (p == 0 && s == 0 && m == 0)
    }) by (bit_vector);
}

} // verus!
