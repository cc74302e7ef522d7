//! What the console shows of a running session: whether a frame is new, the
//! video field of the status bar, and what a paste request does.

use vstd::prelude::*;
use crate::connect::{elapsed_since, timed_out};
use crate::input::Nanos;

verus! {

/// Remembers the newest frame by its sequence number and when it arrived.
#[derive(Clone, Copy, Debug, PartialEq, Eq)]
pub struct FrameTracker {
    pub last_seq: Option<u64>,
    pub last_at: Option<Nanos>,
}

impl FrameTracker {
    /// No frame seen yet.
    pub fn new() -> (r: Self)
        ensures
            r.last_seq is None,
            r.last_at is None,
    {
        FrameTracker { last_seq: None, last_at: None }
    }

    /// The session offers frame `seq` at `now`. A sequence number not seen
    /// last time is a new frame: it is remembered with its arrival time and
    /// the result says the picture has to be redrawn. The same frame again
    /// changes nothing.
    pub fn offer(&mut self, seq: u64, now: Nanos) -> (new_frame: bool)
        ensures
            new_frame == (old(self).last_seq != Some(seq)),
            new_frame ==> *final(self) == (FrameTracker { last_seq: Some(seq), last_at: Some(now) }),
            !new_frame ==> *final(self) == *old(self),
    {
        let new_frame = match self.last_seq {
            Some(s) => s != seq,
            None => true,
        };
        if new_frame {
            self.last_seq = Some(seq);
            self.last_at = Some(now);
        }
        new_frame
    }

    /// The session stopped: nothing is remembered.
    pub fn clear(&mut self)
        ensures
            final(self).last_seq is None,
            final(self).last_at is None,
    {
        self.last_seq = None;
        self.last_at = None;
    }
}

/// Video field of the status bar.
#[derive(Clone, Copy, Debug, PartialEq, Eq, Structural)]
pub enum VideoField {
    /// Frames arrive; their size.
    Size(u32, u32),
    /// A frame was shown but none arrived within the timeout.
    Stalled,
    /// No frame at all.
    NoSignal,
}

/// The video field: the size of the latest frame while frames keep coming,
/// stalled once the newest is `timeout` old, no signal without a frame.
pub open spec fn video_field_of(
    frame: Option<(u32, u32)>,
    last_frame_at: Option<Nanos>,
    now: Nanos,
    timeout: Nanos,
) -> VideoField {
    match frame {
        Some(size) => if timed_out(last_frame_at, timeout, now) {
            VideoField::Stalled
        } else {
            VideoField::Size(size.0, size.1)
        },
        None => VideoField::NoSignal,
    }
}

/// The video field (see [`video_field_of`]).
pub fn video_field(frame: Option<(u32, u32)>, last_frame_at: Option<Nanos>, now: Nanos, timeout: Nanos) -> (r:
    VideoField)
    ensures
        r == video_field_of(frame, last_frame_at, now, timeout),
{
    match frame {
        Some((width, height)) => if elapsed_since(last_frame_at, timeout, now) {
            VideoField::Stalled
        } else {
            VideoField::Size(width, height)
        },
        None => VideoField::NoSignal,
    }
}

/// What a paste request does with what the clipboard gave.
#[derive(Debug, PartialEq, Eq)]
pub enum PasteStep {
    /// Type this text on the target.
    Type(String),
    /// The clipboard holds no text: tell the user.
    Empty,
    /// Reading the clipboard failed with this message.
    Failed(String),
}

/// Text is typed, an empty clipboard and a failure are reported.
pub fn paste_step(read: Result<String, String>) -> (r: PasteStep)
    ensures
        match read {
            Ok(text) => if text@.len() == 0 {
                r is Empty
            } else {
                r == PasteStep::Type(text)
            },
            Err(e) => r == PasteStep::Failed(e),
        },
{
    match read {
        Ok(text) => if text.as_str().unicode_len() == 0 {
            PasteStep::Empty
        } else {
            PasteStep::Type(text)
        },
        Err(e) => PasteStep::Failed(e),
    }
}

/// The language the language toggle switches to: English from Chinese,
/// Chinese from anything else.
pub fn toggled_language(zh: bool) -> (r: crate::locale::AppLanguage)
    ensures
        r == (if zh {
            crate::locale::AppLanguage::English
        } else {
            crate::locale::AppLanguage::Chinese
        }),
{
    if zh {
        crate::locale::AppLanguage::English
    } else {
        crate::locale::AppLanguage::Chinese
    }
}

/// UI ticks between two aggregate lines of the diagnostics log.
pub const UI_TICKS_PER_LOG: u64 = 60;

/// Counts a UI tick while diagnostics are on: the new count (wrapping at the
/// top of the range) and whether this tick writes an aggregate line, once
/// every 60 ticks. With diagnostics off nothing is counted or written.
pub fn ui_tick(enabled: bool, count: u64) -> (r: (u64, bool))
    ensures
        !enabled ==> r == (count, false),
        enabled ==> r.0 == (if count == u64::MAX {
            0
        } else {
            (count + 1) as u64
        }),
        enabled ==> r.1 == (r.0 % UI_TICKS_PER_LOG == 0),
{
    if !enabled {
        return (count, false);
    }
    let next = if count == u64::MAX {
        0
    } else {
        count + 1
    };
    (next, next % UI_TICKS_PER_LOG == 0)
}

/// With the console's timeout, a video that sends no frame for two seconds
/// shows as stalled in the status bar, and one whose newest frame is younger
/// shows its size.
pub proof fn lemma_video_stalls_after_two_seconds(size: (u32, u32), last_frame_at: Nanos, now: Nanos)
    requires
        last_frame_at <= now,
    ensures
        crate::connect::DESKTOP_PREVIEW_TIMEOUT == 2_000_000_000,
        now - last_frame_at >= 2_000_000_000 ==> video_field_of(
            Some(size),
            Some(last_frame_at),
            now,
            crate::connect::DESKTOP_PREVIEW_TIMEOUT,
        ) == VideoField::Stalled,
        now - last_frame_at < 2_000_000_000 ==> video_field_of(
            Some(size),
            Some(last_frame_at),
            now,
            crate::connect::DESKTOP_PREVIEW_TIMEOUT,
        ) == VideoField::Size(size.0, size.1),
{
}

} // verus!
