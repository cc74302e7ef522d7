//! Keyboard and pointer events of the console turned into RFB key and pointer
//! actions.

use vstd::prelude::*;
use crate::keymap::{KeyCode, XK_ALT_L, XK_CONTROL_L, XK_DELETE, XK_PRINT, XK_SHIFT_L, XK_SUPER_L, XK_TAB};
use crate::text::str_eq;

verus! {

/// A key going down or up, by keysym.
#[derive(Clone, Copy, Debug, PartialEq, Eq, Structural)]
pub enum KeyAction {
    Down(u32),
    Up(u32),
}

/// Combinations the local system intercepts, sent from the menu instead.
#[derive(Clone, Copy, Debug, PartialEq, Eq, Structural)]
pub enum SpecialKey {
    CtrlAltDel,
    Win,
    PrintScreen,
    AltTab,
}

/// State of the four modifier keys.
#[derive(Clone, Copy, Debug, Default, PartialEq, Eq, Structural)]
pub struct Modifiers {
    pub shift: bool,
    pub control: bool,
    pub alt: bool,
    pub logo: bool,
}

/// No modifier held.
pub open spec fn no_modifiers() -> Modifiers {
    Modifiers { shift: false, control: false, alt: false, logo: false }
}

impl Modifiers {
    /// No modifier held.
    pub fn empty() -> (r: Self)
        ensures
            r == no_modifiers(),
    {
        Modifiers { shift: false, control: false, alt: false, logo: false }
    }
}

/// Menu name of a special key.
pub open spec fn special_key_named(name: Seq<char>) -> Option<SpecialKey> {
    if name == "CtrlAltDel"@ {
        Some(SpecialKey::CtrlAltDel)
    } else if name == "Win"@ {
        Some(SpecialKey::Win)
    } else if name == "PrintScreen"@ {
        Some(SpecialKey::PrintScreen)
    } else if name == "AltTab"@ {
        Some(SpecialKey::AltTab)
    } else {
        None
    }
}

/// The special key a menu entry names, if any (see [`special_key_named`]).
pub fn special_key_from_menu(name: &str) -> (r: Option<SpecialKey>)
    ensures
        r == special_key_named(name@),
{
    if str_eq(name, "CtrlAltDel") {
        Some(SpecialKey::CtrlAltDel)
    } else if str_eq(name, "Win") {
        Some(SpecialKey::Win)
    } else if str_eq(name, "PrintScreen") {
        Some(SpecialKey::PrintScreen)
    } else if str_eq(name, "AltTab") {
        Some(SpecialKey::AltTab)
    } else {
        None
    }
}

/// A single key tap.
pub open spec fn tap(keysym: u32) -> Seq<KeyAction> {
    seq![KeyAction::Down(keysym), KeyAction::Up(keysym)]
}

/// Key actions of a special key: modifiers go down first and come up in
/// reverse order, a single key is tapped.
pub open spec fn special_sequence(key: SpecialKey) -> Seq<KeyAction> {
    match key {
        SpecialKey::CtrlAltDel => seq![
            KeyAction::Down(XK_CONTROL_L),
            KeyAction::Down(XK_ALT_L),
            KeyAction::Down(XK_DELETE),
            KeyAction::Up(XK_DELETE),
            KeyAction::Up(XK_ALT_L),
            KeyAction::Up(XK_CONTROL_L),
        ],
        SpecialKey::Win => tap(XK_SUPER_L),
        SpecialKey::PrintScreen => tap(XK_PRINT),
        SpecialKey::AltTab => seq![
            KeyAction::Down(XK_ALT_L),
            KeyAction::Down(XK_TAB),
            KeyAction::Up(XK_TAB),
            KeyAction::Up(XK_ALT_L),
        ],
    }
}

fn press(keysym: u32) -> (r: Vec<KeyAction>)
    ensures
        r@ == tap(keysym),
{
    let mut v: Vec<KeyAction> = Vec::new();
    v.push(KeyAction::Down(keysym));
    v.push(KeyAction::Up(keysym));
    v
}

/// The key actions that send a special key (see [`special_sequence`]).
pub fn special_key_sequence(key: SpecialKey) -> (r: Vec<KeyAction>)
    ensures
        r@ == special_sequence(key),
{
    match key {
        SpecialKey::CtrlAltDel => {
            let mut v: Vec<KeyAction> = Vec::new();
            v.push(KeyAction::Down(XK_CONTROL_L));
            v.push(KeyAction::Down(XK_ALT_L));
            v.push(KeyAction::Down(XK_DELETE));
            v.push(KeyAction::Up(XK_DELETE));
            v.push(KeyAction::Up(XK_ALT_L));
            v.push(KeyAction::Up(XK_CONTROL_L));
            assert(v@ =~= special_sequence(key));
            v
        },
        SpecialKey::Win => press(XK_SUPER_L),
        SpecialKey::PrintScreen => press(XK_PRINT),
        SpecialKey::AltTab => {
            let mut v: Vec<KeyAction> = Vec::new();
            v.push(KeyAction::Down(XK_ALT_L));
            v.push(KeyAction::Down(XK_TAB));
            v.push(KeyAction::Up(XK_TAB));
            v.push(KeyAction::Up(XK_ALT_L));
            assert(v@ =~= special_sequence(key));
            v
        },
    }
}

/// A fresh press (not auto-repeat) of `key` with Control and Alt held.
pub open spec fn is_ctrl_alt_press(code: KeyCode, modifiers: Modifiers, repeat: bool, key: KeyCode) -> bool {
    code == key && !repeat && modifiers.control && modifiers.alt
}

/// Ctrl+Alt+K leaves remote input locally; it is not forwarded.
pub fn is_remote_exit_combo(code: KeyCode, modifiers: Modifiers, repeat: bool) -> (r: bool)
    ensures
        r == is_ctrl_alt_press(code, modifiers, repeat, KeyCode::KeyK),
{
    code == KeyCode::KeyK && !repeat && modifiers.control && modifiers.alt
}

/// Ctrl+Alt+M switches between absolute and relative mouse; it is not forwarded.
pub fn is_mode_toggle_combo(code: KeyCode, modifiers: Modifiers, repeat: bool) -> (r: bool)
    ensures
        r == is_ctrl_alt_press(code, modifiers, repeat, KeyCode::KeyM),
{
    code == KeyCode::KeyM && !repeat && modifiers.control && modifiers.alt
}

/// The action for one modifier: pressed since last time, released since last
/// time, or nothing.
pub open spec fn modifier_step(previous: bool, current: bool, keysym: u32) -> Seq<KeyAction> {
    if !previous && current {
        seq![KeyAction::Down(keysym)]
    } else if previous && !current {
        seq![KeyAction::Up(keysym)]
    } else {
        Seq::empty()
    }
}

/// Modifier changes in the fixed order Shift, Control, Alt, Logo.
pub open spec fn modifier_changes(previous: Modifiers, current: Modifiers) -> Seq<KeyAction> {
    modifier_step(previous.shift, current.shift, XK_SHIFT_L) + modifier_step(
        previous.control,
        current.control,
        XK_CONTROL_L,
    ) + modifier_step(previous.alt, current.alt, XK_ALT_L) + modifier_step(
        previous.logo,
        current.logo,
        XK_SUPER_L,
    )
}

/// Appends the action for one modifier change (see [`modifier_step`]).
pub fn diff_modifier(previous: bool, current: bool, keysym: u32, actions: &mut Vec<KeyAction>)
    ensures
        final(actions)@ == old(actions)@ + modifier_step(previous, current, keysym),
{
    if !previous && current {
        actions.push(KeyAction::Down(keysym));
    } else if previous && !current {
        actions.push(KeyAction::Up(keysym));
    }
    assert(final(actions)@ =~= old(actions)@ + modifier_step(previous, current, keysym));
}

/// Key actions that bring the target's modifiers from `previous` to
/// `current` (see [`modifier_changes`]).
pub fn modifier_diff(previous: Modifiers, current: Modifiers) -> (r: Vec<KeyAction>)
    ensures
        r@ == modifier_changes(previous, current),
{
    let mut actions: Vec<KeyAction> = Vec::new();
    diff_modifier(previous.shift, current.shift, XK_SHIFT_L, &mut actions);
    diff_modifier(previous.control, current.control, XK_CONTROL_L, &mut actions);
    diff_modifier(previous.alt, current.alt, XK_ALT_L, &mut actions);
    diff_modifier(previous.logo, current.logo, XK_SUPER_L, &mut actions);
    assert(actions@ =~= modifier_changes(previous, current));
    actions
}

/// The pointer state (button mask, x, y) differs from the last one sent.
pub fn pointer_changed(current: (u8, u16, u16), last: Option<(u8, u16, u16)>) -> (r: bool)
    ensures
        r == (last != Some(current)),
{
    match last {
        Some(l) => !(l.0 == current.0 && l.1 == current.1 && l.2 == current.2),
        None => true,
    }
}

/// Time on the monotonic clock, in nanoseconds since an arbitrary origin.
pub type Nanos = u64;

/// Nanoseconds from `since` to `now`; zero when `since` is later.
pub open spec fn elapsed(now: Nanos, since: Nanos) -> int {
    if now >= since {
        now - since
    } else {
        0
    }
}

/// Sending is due: nothing was sent yet, or at least `interval` has passed.
pub fn throttle_elapsed(now: Nanos, last: Option<Nanos>, interval: Nanos) -> (r: bool)
    ensures
        r == match last {
            None => true,
            Some(l) => elapsed(now, l) >= interval,
        },
{
    match last {
        None => true,
        Some(l) => now.saturating_sub(l) >= interval,
    }
}

/// Key-down actions for `keys`, in order.
pub open spec fn presses(keys: Seq<u32>) -> Seq<KeyAction> {
    keys.map_values(|k: u32| KeyAction::Down(k))
}

/// Key-up actions for `keys`, in order.
pub open spec fn releases(keys: Seq<u32>) -> Seq<KeyAction> {
    keys.map_values(|k: u32| KeyAction::Up(k))
}

/// The opposite action on the same key.
pub open spec fn flip(action: KeyAction) -> KeyAction {
    match action {
        KeyAction::Down(k) => KeyAction::Up(k),
        KeyAction::Up(k) => KeyAction::Down(k),
    }
}

/// The keys a special key holds down, in the order they go down.
pub open spec fn chord(key: SpecialKey) -> Seq<u32> {
    match key {
        SpecialKey::CtrlAltDel => seq![XK_CONTROL_L, XK_ALT_L, XK_DELETE],
        SpecialKey::Win => seq![XK_SUPER_L],
        SpecialKey::PrintScreen => seq![XK_PRINT],
        SpecialKey::AltTab => seq![XK_ALT_L, XK_TAB],
    }
}

/// A special key presses its chord in order and releases it in reverse
/// order, so that nothing stays held on the target.
pub proof fn lemma_special_sequence_releases_in_reverse(key: SpecialKey)
    ensures
        special_sequence(key) == presses(chord(key)) + releases(chord(key).reverse()),
{
    assert(special_sequence(key) =~= presses(chord(key)) + releases(chord(key).reverse()));
}

/// Unchanged modifiers send nothing.
pub proof fn lemma_modifier_changes_none(m: Modifiers)
    ensures
        modifier_changes(m, m).len() == 0,
{
    assert(modifier_changes(m, m) =~= Seq::<KeyAction>::empty());
}

/// Each action turned into its opposite.
pub open spec fn flipped(actions: Seq<KeyAction>) -> Seq<KeyAction> {
    actions.map_values(|x: KeyAction| flip(x))
}

proof fn lemma_step_undo(previous: bool, current: bool, keysym: u32)
    ensures
        modifier_step(current, previous, keysym) == flipped(modifier_step(previous, current, keysym)),
{
    assert(modifier_step(current, previous, keysym) =~= flipped(
        modifier_step(previous, current, keysym),
    ));
}

proof fn lemma_flipped_add(x: Seq<KeyAction>, y: Seq<KeyAction>)
    ensures
        flipped(x + y) == flipped(x) + flipped(y),
{
    assert(flipped(x + y) =~= flipped(x) + flipped(y));
}

/// Going back from `b` to `a` sends the opposite of each action that went
/// from `a` to `b`, in the same order.
pub proof fn lemma_modifier_changes_undo(a: Modifiers, b: Modifiers)
    ensures
        modifier_changes(b, a) == flipped(modifier_changes(a, b)),
{
    lemma_step_undo(a.shift, b.shift, XK_SHIFT_L);
    lemma_step_undo(a.control, b.control, XK_CONTROL_L);
    lemma_step_undo(a.alt, b.alt, XK_ALT_L);
    lemma_step_undo(a.logo, b.logo, XK_SUPER_L);
    lemma_flipped_add(modifier_step(a.shift, b.shift, XK_SHIFT_L), modifier_step(a.control, b.control, XK_CONTROL_L));
    lemma_flipped_add(modifier_step(a.shift, b.shift, XK_SHIFT_L) + modifier_step(a.control, b.control, XK_CONTROL_L), modifier_step(a.alt, b.alt, XK_ALT_L));
    lemma_flipped_add(modifier_step(a.shift, b.shift, XK_SHIFT_L) + modifier_step(a.control, b.control, XK_CONTROL_L) + modifier_step(a.alt, b.alt, XK_ALT_L), modifier_step(a.logo, b.logo, XK_SUPER_L));
}

} // verus!
