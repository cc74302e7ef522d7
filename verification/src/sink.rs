//! A recording input sink: keeps every key and pointer event it is handed, for
//! tests and for consoles without a control device.

use vstd::prelude::*;
use crate::config::MouseMode;

verus! {

/// A key going down or up, by HID usage.
#[derive(Clone, Copy, Debug, PartialEq, Eq, Structural)]
pub enum KeyEvent {
    Down { usage: u8 },
    Up { usage: u8 },
}

/// A pointer button.
#[derive(Clone, Copy, Debug, PartialEq, Eq, Structural)]
pub enum PointerButton {
    Left,
    Right,
    Middle,
}

/// A pointer event as the control device receives it.
#[derive(Clone, Copy, Debug, PartialEq, Eq, Structural)]
pub enum PointerEvent {
    AbsoluteMove { x: u16, y: u16 },
    RelativeMove { dx: i16, dy: i16 },
    Button { button: PointerButton, down: bool },
    Wheel { delta: i8 },
}

/// `a + b`, held to the range of `i16`.
pub open spec fn sat_i16(a: int, b: int) -> i16 {
    if a + b > i16::MAX {
        i16::MAX
    } else if a + b < i16::MIN {
        i16::MIN
    } else {
        (a + b) as i16
    }
}

/// `a + b`, held to the range of `i8`.
pub open spec fn sat_i8(a: int, b: int) -> i8 {
    if a + b > i8::MAX {
        i8::MAX
    } else if a + b < i8::MIN {
        i8::MIN
    } else {
        (a + b) as i8
    }
}

fn saturating_add_i16(a: i16, b: i16) -> (r: i16)
    ensures
        r == sat_i16(a as int, b as int),
{
    let s: i32 = a as i32 + b as i32;
    if s > 32767 {
        32767
    } else if s < -32768 {
        -32768
    } else {
        s as i16
    }
}

pub(crate) fn saturating_add_i8(a: i8, b: i8) -> (r: i8)
    ensures
        r == sat_i8(a as int, b as int),
{
    let s: i16 = a as i16 + b as i16;
    if s > 127 {
        127
    } else if s < -128 {
        -128
    } else {
        s as i8
    }
}

/// Mask bit of a button: left 1, right 2, middle 4.
pub open spec fn button_bit(button: PointerButton) -> u8 {
    match button {
        PointerButton::Left => 1u8,
        PointerButton::Right => 2u8,
        PointerButton::Middle => 4u8,
    }
}

/// What a pointer batch adds up to: whether it held absolute and relative
/// events, the summed motion and wheel (each held to its range), and the
/// button mask after it.
#[derive(Clone, Copy, Debug, PartialEq, Eq, Structural)]
pub struct BatchTotals {
    pub has_absolute: bool,
    pub has_relative: bool,
    pub dx: i16,
    pub dy: i16,
    pub wheel: i8,
    pub mask: u8,
}

/// Totals of a batch starting from button mask `mask`, folded left to right.
pub open spec fn batch_totals(events: Seq<PointerEvent>, mask: u8) -> BatchTotals
    decreases events.len(),
{
    if events.len() == 0 {
        BatchTotals { has_absolute: false, has_relative: false, dx: 0, dy: 0, wheel: 0, mask }
    } else {
        let t = batch_totals(events.drop_last(), mask);
        match events.last() {
            PointerEvent::AbsoluteMove { .. } => BatchTotals { has_absolute: true, ..t },
            PointerEvent::RelativeMove { dx, dy } => BatchTotals {
                has_relative: true,
                dx: sat_i16(t.dx as int, dx as int),
                dy: sat_i16(t.dy as int, dy as int),
                ..t
            },
            PointerEvent::Button { button, down } => BatchTotals {
                has_relative: true,
                mask: if down {
                    t.mask | button_bit(button)
                } else {
                    t.mask & !button_bit(button)
                },
                ..t
            },
            PointerEvent::Wheel { delta } => BatchTotals {
                has_relative: true,
                wheel: sat_i8(t.wheel as int, delta as int),
                ..t
            },
        }
    }
}

/// The absolute positions of a batch, in order.
pub open spec fn absolute_positions(events: Seq<PointerEvent>) -> Seq<(u16, u16)>
    decreases events.len(),
{
    if events.len() == 0 {
        Seq::empty()
    } else {
        let rest = absolute_positions(events.drop_last());
        match events.last() {
            PointerEvent::AbsoluteMove { x, y } => rest.push((x, y)),
            _ => rest,
        }
    }
}

/// The relative motions of a batch, in order.
pub open spec fn relative_motions(events: Seq<PointerEvent>) -> Seq<(i16, i16)>
    decreases events.len(),
{
    if events.len() == 0 {
        Seq::empty()
    } else {
        let rest = relative_motions(events.drop_last());
        match events.last() {
            PointerEvent::RelativeMove { dx, dy } => rest.push((dx, dy)),
            _ => rest,
        }
    }
}

/// Key events as (down, usage) pairs, in order.
pub open spec fn key_pairs(events: Seq<KeyEvent>) -> Seq<(bool, u8)> {
    events.map_values(
        |e: KeyEvent|
            match e {
                KeyEvent::Down { usage } => (true, usage),
                KeyEvent::Up { usage } => (false, usage),
            },
    )
}

/// Everything a sink was handed, in arrival order.
#[derive(Clone, Debug, Default)]
pub struct RecordingSink {
    /// Number of key batches.
    pub key_batches: usize,
    /// Number of pointer batches.
    pub pointer_batches: usize,
    /// Key events as (down, HID usage).
    pub key_events: Vec<(bool, u8)>,
    /// Absolute pointer positions.
    pub absolute_moves: Vec<(u16, u16)>,
    /// Relative pointer motions, one per event.
    pub relative_deltas: Vec<(i16, i16)>,
    /// One (mask, dx, dy, wheel) per batch that held relative events and no
    /// absolute one.
    pub relative_events: Vec<(u8, i16, i16, i8)>,
    /// The button mask rebuilt from the button events seen so far.
    pub relative_mask: u8,
    /// Number of release-all requests.
    pub releases: usize,
    /// The last mouse mode requested.
    pub mouse_mode: Option<MouseMode>,
}

impl RecordingSink {
    /// Records the requested mouse mode.
    pub fn set_mouse_mode(&mut self, mode: MouseMode)
        ensures
            *final(self) == (RecordingSink { mouse_mode: Some(mode), ..*old(self) }),
    {
        self.mouse_mode = Some(mode);
    }

    /// Records a key batch.
    pub fn handle_key_batch(&mut self, events: &[KeyEvent])
        requires
            old(self).key_batches < usize::MAX,
        ensures
            final(self).key_batches == old(self).key_batches + 1,
            final(self).key_events@ == old(self).key_events@ + key_pairs(events@),
            final(self).pointer_batches == old(self).pointer_batches,
            final(self).absolute_moves == old(self).absolute_moves,
            final(self).relative_deltas == old(self).relative_deltas,
            final(self).relative_events == old(self).relative_events,
            final(self).relative_mask == old(self).relative_mask,
            final(self).releases == old(self).releases,
    {
        self.key_batches = self.key_batches + 1;
        let mut i: usize = 0;
        while i < events.len()
            invariant
                i <= events@.len(),
                self.key_events@ == old(self).key_events@ + key_pairs(events@.subrange(0, i as int)),
                self.key_batches == old(self).key_batches + 1,
                self.pointer_batches == old(self).pointer_batches,
                self.absolute_moves == old(self).absolute_moves,
                self.relative_deltas == old(self).relative_deltas,
                self.relative_events == old(self).relative_events,
                self.relative_mask == old(self).relative_mask,
                self.releases == old(self).releases,
            decreases events@.len() - i,
        {
            let pair = match events[i] {
                KeyEvent::Down { usage } => (true, usage),
                KeyEvent::Up { usage } => (false, usage),
            };
            self.key_events.push(pair);
            proof {
                assert(key_pairs(events@.subrange(0, i + 1)) =~= key_pairs(
                    events@.subrange(0, i as int),
                ).push(pair));
            }
            i = i + 1;
        }
        proof {
            assert(events@.subrange(0, events@.len() as int) =~= events@);
        }
    }

    /// Records a pointer batch: every absolute position and relative motion,
    /// the button mask after the batch, and, for a batch with relative events
    /// but no absolute one, one summary (mask, dx, dy, wheel).
    pub fn handle_pointer_batch(&mut self, events: &[PointerEvent])
        requires
            old(self).pointer_batches < usize::MAX,
        ensures
            final(self).pointer_batches == old(self).pointer_batches + 1,
            final(self).absolute_moves@ == old(self).absolute_moves@ + absolute_positions(events@),
            final(self).relative_deltas@ == old(self).relative_deltas@ + relative_motions(events@),
            final(self).relative_mask == batch_totals(events@, old(self).relative_mask).mask,
            ({
                let t = batch_totals(events@, old(self).relative_mask);
                final(self).relative_events@ == if t.has_relative && !t.has_absolute {
                    old(self).relative_events@.push((t.mask, t.dx, t.dy, t.wheel))
                } else {
                    old(self).relative_events@
                }
            }),
            final(self).key_batches == old(self).key_batches,
            final(self).key_events == old(self).key_events,
            final(self).releases == old(self).releases,
    {
        self.pointer_batches = self.pointer_batches + 1;
        let mut has_absolute = false;
        let mut has_relative = false;
        let mut dx: i16 = 0;
        let mut dy: i16 = 0;
        let mut wheel: i8 = 0;
        let mut i: usize = 0;
        while i < events.len()
            invariant
                i <= events@.len(),
                ({
                    let t = batch_totals(events@.subrange(0, i as int), old(self).relative_mask);
                    &&& t.has_absolute == has_absolute
                    &&& t.has_relative == has_relative
                    &&& t.dx == dx
                    &&& t.dy == dy
                    &&& t.wheel == wheel
                    &&& t.mask == self.relative_mask
                }),
                self.absolute_moves@ == old(self).absolute_moves@ + absolute_positions(
                    events@.subrange(0, i as int),
                ),
                self.relative_deltas@ == old(self).relative_deltas@ + relative_motions(
                    events@.subrange(0, i as int),
                ),
                self.pointer_batches == old(self).pointer_batches + 1,
                self.relative_events == old(self).relative_events,
                self.key_batches == old(self).key_batches,
                self.key_events == old(self).key_events,
                self.releases == old(self).releases,
            decreases events@.len() - i,
        {
            let ghost prefix = events@.subrange(0, i as int);
            proof {
                assert(events@.subrange(0, i + 1).drop_last() =~= prefix);
                assert(events@.subrange(0, i + 1).last() == events@[i as int]);
            }
            match events[i] {
                PointerEvent::AbsoluteMove { x, y } => {
                    has_absolute = true;
                    self.absolute_moves.push((x, y));
                },
                PointerEvent::RelativeMove { dx: rx, dy: ry } => {
                    has_relative = true;
                    dx = saturating_add_i16(dx, rx);
                    dy = saturating_add_i16(dy, ry);
                    self.relative_deltas.push((rx, ry));
                },
                PointerEvent::Button { button, down } => {
                    has_relative = true;
                    let bit: u8 = match button {
                        PointerButton::Left => 1,
                        PointerButton::Right => 2,
                        PointerButton::Middle => 4,
                    };
                    if down {
                        self.relative_mask = self.relative_mask | bit;
                    } else {
                        self.relative_mask = self.relative_mask & !bit;
                    }
                },
                PointerEvent::Wheel { delta } => {
                    has_relative = true;
                    wheel = saturating_add_i8(wheel, delta);
                },
            }
            i = i + 1;
        }
        proof {
            assert(events@.subrange(0, events@.len() as int) =~= events@);
        }
        if has_relative && !has_absolute {
            self.relative_events.push((self.relative_mask, dx, dy, wheel));
        }
    }

    /// Counts a release-all request.
    pub fn release_all(&mut self)
        requires
            old(self).releases < usize::MAX,
        ensures
            *final(self) == (RecordingSink { releases: (old(self).releases + 1) as usize, ..*old(self) }),
    {
        self.releases = self.releases + 1;
    }
}

} // verus!
