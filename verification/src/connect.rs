//! Connection page: when to reopen the preview after re-enumeration, and the
//! preview runtime that moves the video status from opening to ready or to no
//! signal.

use vstd::prelude::*;
use crate::input::{elapsed, Nanos};
use crate::state::{find_by_id, has_id, DeviceSelectionState, PreviewInfo, VideoProbeStatus};

verus! {

/// How long a freshly opened preview may stay without a frame.
pub const PROBE_TIMEOUT: Nanos = 1_200_000_000;

/// How long a running preview may stall before it counts as no signal.
pub const NO_SIGNAL_TIMEOUT: Nanos = 3_000_000_000;

/// Both preview timeouts of the immediate-mode desktop console, and the time
/// without a frame after which its status bar shows the video as stalled.
pub const DESKTOP_PREVIEW_TIMEOUT: Nanos = 2_000_000_000;

/// What to do with the preview after the device lists were refreshed.
#[derive(Clone, Copy, Debug, PartialEq, Eq, Structural)]
pub enum PreviewRefreshAction {
    Skip,
    Reopen,
    KeepDisconnected,
}

/// A running, opening or unselected preview is left alone; a failed or silent
/// one is reopened; a disconnected one is reopened once its device is back.
pub open spec fn refresh_action_for(status: VideoProbeStatus, device_present: bool) -> PreviewRefreshAction {
    match status {
        VideoProbeStatus::Ready(_) | VideoProbeStatus::Checking | VideoProbeStatus::NotSelected => {
            PreviewRefreshAction::Skip
        },
        VideoProbeStatus::OpenFailed(_) | VideoProbeStatus::NoSignal => PreviewRefreshAction::Reopen,
        VideoProbeStatus::Disconnected => if device_present {
            PreviewRefreshAction::Reopen
        } else {
            PreviewRefreshAction::KeepDisconnected
        },
    }
}

/// Decides what to do with the preview after a refresh (see [`refresh_action_for`]).
pub fn preview_refresh_action(status: &VideoProbeStatus, device_present: bool) -> (r:
    PreviewRefreshAction)
    ensures
        r == refresh_action_for(*status, device_present),
{
    match status {
        VideoProbeStatus::Ready(_) | VideoProbeStatus::Checking | VideoProbeStatus::NotSelected => {
            PreviewRefreshAction::Skip
        },
        VideoProbeStatus::OpenFailed(_) | VideoProbeStatus::NoSignal => PreviewRefreshAction::Reopen,
        VideoProbeStatus::Disconnected => if device_present {
            PreviewRefreshAction::Reopen
        } else {
            PreviewRefreshAction::KeepDisconnected
        },
    }
}

/// The selected video id names a listed device.
pub open spec fn selected_video_present(selection: DeviceSelectionState) -> bool {
    selection.selected_video_id matches Some(id) && has_id(selection.video_devices@, id@)
}

/// After the device lists were refreshed: what becomes of the preview (see
/// [`refresh_action_for`]). A preview to reopen leaves the video device
/// marked for checking; nothing else changes.
pub fn refresh_preview(selection: &mut DeviceSelectionState) -> (r: PreviewRefreshAction)
    ensures
        r == refresh_action_for(old(selection).video_status, selected_video_present(*old(selection))),
        r is Reopen ==> final(selection).video_status is Checking,
        !(r is Reopen) ==> final(selection).video_status == old(selection).video_status,
        final(selection).video_devices == old(selection).video_devices,
        final(selection).control_devices == old(selection).control_devices,
        final(selection).selected_video_id == old(selection).selected_video_id,
        final(selection).selected_control_id == old(selection).selected_control_id,
        final(selection).control_status == old(selection).control_status,
{
    let present = match &selection.selected_video_id {
        Some(id) => find_by_id(&selection.video_devices, id).is_some(),
        None => false,
    };
    proof {
        if selection.selected_video_id is Some {
            let id = selection.selected_video_id.unwrap();
            if has_id(selection.video_devices@, id@) && !present {
                let k = choose|k: int|
                    0 <= k < selection.video_devices@.len()
                        && (#[trigger] selection.video_devices@[k]).id@ == id@;
                assert(selection.video_devices@[k].id@ == id@);
            }
        }
    }
    let action = preview_refresh_action(&selection.video_status, present);
    if action == PreviewRefreshAction::Reopen {
        selection.video_status = VideoProbeStatus::Checking;
    }
    action
}

/// At least `timeout` has passed since `since`; never true without a `since`.
pub open spec fn timed_out(since: Option<Nanos>, timeout: Nanos, now: Nanos) -> bool {
    match since {
        Some(at) => elapsed(now, at) >= timeout,
        None => false,
    }
}

/// Whether a timeout measured from `since` has expired (see [`timed_out`]).
pub fn elapsed_since(since: Option<Nanos>, timeout: Nanos, now: Nanos) -> (r: bool)
    ensures
        r == timed_out(since, timeout, now),
{
    match since {
        Some(at) => now.saturating_sub(at) >= timeout,
        None => false,
    }
}

/// A frame source of the preview, as far as the runtime reads it. An
/// implementation says in `frame_answers` and `name_answers` which answers
/// its reads may give.
pub trait PreviewSource {
    /// Whether `r` is an answer the source may give for its newest frame.
    spec fn frame_answers(&self, r: Option<(u32, u32)>) -> bool;

    /// Whether `r` is a name the source may give for its device.
    spec fn name_answers(&self, r: String) -> bool;

    /// Size of the newest frame, if one arrived.
    fn latest_frame_size(&self) -> (r: Option<(u32, u32)>)
        ensures
            self.frame_answers(r),
    ;

    /// Name of the capture device behind the source.
    fn device_name(&self) -> (r: String)
        ensures
            self.name_answers(r),
    ;
}

/// Opens preview sources by device id. An implementation says in `opens`
/// which results opening a device at a frame rate may give.
pub trait PreviewSourceFactory<S> {
    /// Whether `r` is a result of opening `device_id` at `fps` frames a second.
    spec fn opens(&self, device_id: &str, fps: u64, r: Result<S, String>) -> bool;

    fn open(&self, device_id: &str, fps: u64) -> (r: Result<S, String>)
        ensures
            self.opens(device_id, fps, r),
    ;
}

/// `f` is what polling `source` may give: no frame, or the newest frame's
/// size with the device's name.
pub open spec fn polled<S: PreviewSource>(source: S, f: Option<(u32, u32, String)>) -> bool {
    match f {
        None => source.frame_answers(None),
        Some(t) => source.frame_answers(Some((t.0, t.1))) && source.name_answers(t.2),
    }
}

/// The status after polling gave `f` (see [`PreviewRuntime::observe`]).
pub open spec fn observed_status(
    status: VideoProbeStatus,
    opened_at: Option<Nanos>,
    last_frame_at: Option<Nanos>,
    now: Nanos,
    probe_timeout: Nanos,
    no_signal_timeout: Nanos,
    f: Option<(u32, u32, String)>,
) -> VideoProbeStatus {
    match f {
        None => if stalled(status, opened_at, last_frame_at, now, probe_timeout, no_signal_timeout) {
            VideoProbeStatus::NoSignal
        } else {
            status
        },
        Some(t) => if status is Ready {
            status
        } else {
            VideoProbeStatus::Ready(PreviewInfo { width: t.0, height: t.1, label: t.2 })
        },
    }
}

/// What a tick has to do after looking at the selection.
#[derive(Debug, PartialEq, Eq)]
pub enum PreviewStep {
    /// Nothing more this tick.
    Stop,
    /// A different device is selected: open it.
    Open(String),
    /// The current source stays: look for a frame.
    Poll,
}

/// The preview source, the device it belongs to and its timestamps.
pub struct PreviewRuntime<S> {
    source: Option<S>,
    device_id: Option<String>,
    opened_at: Option<Nanos>,
    last_frame_at: Option<Nanos>,
    probe_timeout: Nanos,
    no_signal_timeout: Nanos,
}

/// A stalled preview: no frame within `probe_timeout` while opening, or
/// within `no_signal_timeout` after frames arrived.
pub open spec fn stalled(
    status: VideoProbeStatus,
    opened_at: Option<Nanos>,
    last_frame_at: Option<Nanos>,
    now: Nanos,
    probe_timeout: Nanos,
    no_signal_timeout: Nanos,
) -> bool {
    match status {
        VideoProbeStatus::Checking => timed_out(opened_at, probe_timeout, now),
        VideoProbeStatus::Ready(_) => timed_out(last_frame_at, no_signal_timeout, now),
        _ => false,
    }
}

/// The selected id, as characters.
pub open spec fn id_chars(id: Option<String>) -> Option<Seq<char>> {
    match id {
        Some(s) => Some(s@),
        None => None,
    }
}

impl<S> PreviewRuntime<S> {
    pub closed spec fn has_source(&self) -> bool {
        self.source is Some
    }

    /// The source held, if any.
    pub closed spec fn held_source(&self) -> Option<S> {
        self.source
    }

    pub closed spec fn device(&self) -> Option<Seq<char>> {
        id_chars(self.device_id)
    }

    pub closed spec fn opened_at(&self) -> Option<Nanos> {
        self.opened_at
    }

    pub closed spec fn last_frame_at(&self) -> Option<Nanos> {
        self.last_frame_at
    }

    pub closed spec fn probe_timeout(&self) -> Nanos {
        self.probe_timeout
    }

    pub closed spec fn no_signal_timeout(&self) -> Nanos {
        self.no_signal_timeout
    }

    /// A runtime with no source and the console's timeouts.
    pub fn new() -> (r: Self)
        ensures
            !r.has_source(),
            r.device() is None,
            r.opened_at() is None,
            r.last_frame_at() is None,
            r.probe_timeout() == PROBE_TIMEOUT,
            r.no_signal_timeout() == NO_SIGNAL_TIMEOUT,
    {
        PreviewRuntime::with_timeouts(PROBE_TIMEOUT, NO_SIGNAL_TIMEOUT)
    }

    /// A runtime with no source and the given timeouts.
    pub fn with_timeouts(probe_timeout: Nanos, no_signal_timeout: Nanos) -> (r: Self)
        ensures
            !r.has_source(),
            r.device() is None,
            r.opened_at() is None,
            r.last_frame_at() is None,
            r.probe_timeout() == probe_timeout,
            r.no_signal_timeout() == no_signal_timeout,
    {
        PreviewRuntime {
            source: None,
            device_id: None,
            opened_at: None,
            last_frame_at: None,
            probe_timeout,
            no_signal_timeout,
        }
    }

    /// Drops the source and forgets device and timestamps.
    pub fn reset(&mut self)
        ensures
            !final(self).has_source(),
            final(self).device() is None,
            final(self).opened_at() is None,
            final(self).last_frame_at() is None,
            final(self).probe_timeout() == old(self).probe_timeout(),
            final(self).no_signal_timeout() == old(self).no_signal_timeout(),
    {
        self.source = None;
        self.device_id = None;
        self.opened_at = None;
        self.last_frame_at = None;
    }

    /// The current preview source.
    pub fn source(&self) -> (r: Option<&S>)
        ensures
            r is Some == self.has_source(),
    {
        match &self.source {
            Some(s) => Some(s),
            None => None,
        }
    }

    /// First part of a tick. A disconnected preview stays as it is. When the
    /// selected device changed, the runtime is reset to it: with a selection the
    /// device has to be opened, without one the status becomes `NotSelected`.
    /// Otherwise the current source is polled.
    pub fn plan_tick(&mut self, selection: &mut DeviceSelectionState) -> (step: PreviewStep)
        ensures
            final(selection).video_devices == old(selection).video_devices,
            final(selection).control_devices == old(selection).control_devices,
            final(selection).selected_video_id == old(selection).selected_video_id,
            final(selection).selected_control_id == old(selection).selected_control_id,
            final(selection).control_status == old(selection).control_status,
            final(self).probe_timeout() == old(self).probe_timeout(),
            final(self).no_signal_timeout() == old(self).no_signal_timeout(),
            old(selection).video_status is Disconnected ==> step is Stop && *final(selection)
                == *old(selection) && final(self).device() == old(self).device()
                && final(self).has_source() == old(self).has_source(),
            !(old(selection).video_status is Disconnected) && old(self).device() == id_chars(
                old(selection).selected_video_id,
            ) ==> step is Poll && final(selection).video_status == old(selection).video_status
                && *final(self) == *old(self),
            !(old(selection).video_status is Disconnected) && old(self).device() != id_chars(
                old(selection).selected_video_id,
            ) ==> {
                &&& !final(self).has_source()
                &&& final(self).device() == id_chars(old(selection).selected_video_id)
                &&& final(self).opened_at() is None
                &&& final(self).last_frame_at() is None
                &&& match old(selection).selected_video_id {
                    Some(id) => step matches PreviewStep::Open(o) && o@ == id@
                        && final(selection).video_status == old(selection).video_status,
                    None => step is Stop && final(selection).video_status is NotSelected,
                }
            },
    {
        if matches!(selection.video_status, VideoProbeStatus::Disconnected) {
            return PreviewStep::Stop;
        }
        let same = match (&self.device_id, &selection.selected_video_id) {
            (Some(a), Some(b)) => *a == *b,
            (None, None) => true,
            _ => false,
        };
        if same {
            return PreviewStep::Poll;
        }
        self.reset();
        match &selection.selected_video_id {
            Some(id) => {
                self.device_id = Some(id.clone());
                PreviewStep::Open(id.clone())
            },
            None => {
                selection.video_status = VideoProbeStatus::NotSelected;
                PreviewStep::Stop
            },
        }
    }

    /// Second part of a tick, after the factory tried to open the device: a
    /// source is kept and the status becomes `Checking`; an error becomes
    /// `OpenFailed`. Returns whether the source should be polled now.
    pub fn opened(&mut self, selection: &mut DeviceSelectionState, result: Result<S, String>, now: Nanos) -> (poll: bool)
        ensures
            final(selection).video_devices == old(selection).video_devices,
            final(selection).control_devices == old(selection).control_devices,
            final(selection).selected_video_id == old(selection).selected_video_id,
            final(selection).selected_control_id == old(selection).selected_control_id,
            final(selection).control_status == old(selection).control_status,
            final(self).probe_timeout() == old(self).probe_timeout(),
            final(self).no_signal_timeout() == old(self).no_signal_timeout(),
            final(self).device() == old(self).device(),
            final(self).last_frame_at() == old(self).last_frame_at(),
            poll == result is Ok,
            result matches Ok(s) ==> final(self).has_source() && final(self).held_source() == Some(s)
                && final(self).opened_at() == Some(now) && final(selection).video_status is Checking,
            result matches Err(e) ==> final(selection).video_status == VideoProbeStatus::OpenFailed(e)
                && final(self).has_source() == old(self).has_source()
                && final(self).opened_at() == old(self).opened_at(),
    {
        match result {
            Ok(source) => {
                self.source = Some(source);
                self.opened_at = Some(now);
                selection.video_status = VideoProbeStatus::Checking;
                true
            },
            Err(error) => {
                selection.video_status = VideoProbeStatus::OpenFailed(error);
                false
            },
        }
    }

    /// Last part of a tick, with what polling the source gave: a frame (its
    /// size and the device name) is recorded, and a preview that was not yet
    /// ready becomes `Ready`; without a frame a stalled preview becomes
    /// `NoSignal`. Returns whether a frame arrived.
    pub fn observe(
        &mut self,
        selection: &mut DeviceSelectionState,
        frame: Option<(u32, u32, String)>,
        now: Nanos,
    ) -> (got: bool)
        ensures
            final(selection).video_devices == old(selection).video_devices,
            final(selection).control_devices == old(selection).control_devices,
            final(selection).selected_video_id == old(selection).selected_video_id,
            final(selection).selected_control_id == old(selection).selected_control_id,
            final(selection).control_status == old(selection).control_status,
            final(self).probe_timeout() == old(self).probe_timeout(),
            final(self).no_signal_timeout() == old(self).no_signal_timeout(),
            final(self).device() == old(self).device(),
            final(self).has_source() == old(self).has_source(),
            final(self).held_source() == old(self).held_source(),
            final(self).opened_at() == old(self).opened_at(),
            got == frame is Some,
            frame is None ==> final(self).last_frame_at() == old(self).last_frame_at()
                && final(selection).video_status == (if stalled(
                old(selection).video_status,
                old(self).opened_at(),
                old(self).last_frame_at(),
                now,
                old(self).probe_timeout(),
                old(self).no_signal_timeout(),
            ) {
                VideoProbeStatus::NoSignal
            } else {
                old(selection).video_status
            }),
            frame matches Some(f) ==> final(self).last_frame_at() == Some(now)
                && final(selection).video_status == (if old(selection).video_status is Ready {
                old(selection).video_status
            } else {
                VideoProbeStatus::Ready(PreviewInfo { width: f.0, height: f.1, label: f.2 })
            }),
    {
        match frame {
            None => {
                let is_stalled = match selection.video_status {
                    VideoProbeStatus::Checking => elapsed_since(
                        self.opened_at,
                        self.probe_timeout,
                        now,
                    ),
                    VideoProbeStatus::Ready(_) => elapsed_since(
                        self.last_frame_at,
                        self.no_signal_timeout,
                        now,
                    ),
                    _ => false,
                };
                if is_stalled {
                    selection.video_status = VideoProbeStatus::NoSignal;
                }
                false
            },
            Some((width, height, label)) => {
                self.last_frame_at = Some(now);
                if !matches!(selection.video_status, VideoProbeStatus::Ready(_)) {
                    selection.video_status = VideoProbeStatus::Ready(
                        PreviewInfo { width, height, label },
                    );
                }
                true
            },
        }
    }
}

impl<S> PreviewRuntime<S> {
    /// A frame arrived but could not be shown: it still counts as a sign of
    /// life, the status stays.
    pub fn frame_unusable(&mut self, now: Nanos)
        ensures
            final(self).last_frame_at() == Some(now),
            final(self).opened_at() == old(self).opened_at(),
            final(self).device() == old(self).device(),
            final(self).has_source() == old(self).has_source(),
            final(self).probe_timeout() == old(self).probe_timeout(),
            final(self).no_signal_timeout() == old(self).no_signal_timeout(),
    {
        self.last_frame_at = Some(now);
    }
}

impl<S: PreviewSource> PreviewRuntime<S> {
    /// One preview tick: follow the selected device, open it through the
    /// factory at `fps` when it changed, then poll the source for a frame.
    /// Returns whether a frame arrived this tick. A tick on the same device
    /// without a source (after a failed open) changes nothing; otherwise the
    /// status is what [`observed_status`] gives for the factory's and the
    /// source's answers.
    pub fn tick<F: PreviewSourceFactory<S>>(
        &mut self,
        selection: &mut DeviceSelectionState,
        factory: &F,
        fps: u64,
        now: Nanos,
    ) -> (got: bool)
        ensures
            final(selection).video_devices == old(selection).video_devices,
            final(selection).control_devices == old(selection).control_devices,
            final(selection).selected_video_id == old(selection).selected_video_id,
            final(selection).selected_control_id == old(selection).selected_control_id,
            final(selection).control_status == old(selection).control_status,
            final(self).probe_timeout() == old(self).probe_timeout(),
            final(self).no_signal_timeout() == old(self).no_signal_timeout(),
            old(selection).video_status is Disconnected ==> !got && final(selection).video_status
                is Disconnected && final(self).has_source() == old(self).has_source(),
            !(old(selection).video_status is Disconnected) ==> final(self).device() == id_chars(
                old(selection).selected_video_id,
            ),
            !(old(selection).video_status is Disconnected) && old(selection).selected_video_id is None
                && old(self).device() is Some ==> !got
                && final(selection).video_status is NotSelected && !final(self).has_source(),
            got ==> final(selection).video_status is Ready && final(self).last_frame_at() == Some(
                now,
            ) && final(self).has_source(),
            final(selection).video_status is OpenFailed ==> !got,
            old(selection).video_status is Disconnected ==> *final(selection) == *old(selection),
            !(old(selection).video_status is Disconnected) && old(self).device() == id_chars(
                old(selection).selected_video_id,
            ) && !old(self).has_source() ==> !got && *final(selection) == *old(selection),
            old(self).held_source() matches Some(source) ==> (!(old(selection).video_status is Disconnected)
                && old(self).device() == id_chars(old(selection).selected_video_id) ==> exists|
                f: Option<(u32, u32, String)>,
            |
                #[trigger] polled(source, f) && got == f is Some && final(selection).video_status
                    == observed_status(
                    old(selection).video_status,
                    old(self).opened_at(),
                    old(self).last_frame_at(),
                    now,
                    old(self).probe_timeout(),
                    old(self).no_signal_timeout(),
                    f,
                )),
            old(selection).selected_video_id matches Some(id) ==> (!(old(selection).video_status is Disconnected)
                && old(self).device() != id_chars(old(selection).selected_video_id) ==> exists|
                key: &str,
                opened: Result<S, String>,
            |
                key@ == id@ && #[trigger] factory.opens(key, fps, opened) && match opened {
                    Err(e) => !got && final(selection).video_status == VideoProbeStatus::OpenFailed(
                        e,
                    ) && !final(self).has_source(),
                    Ok(source) => final(self).held_source() == Some(source) && exists|
                        f: Option<(u32, u32, String)>,
                    |
                        #[trigger] polled(source, f) && got == f is Some
                            && final(selection).video_status == observed_status(
                            VideoProbeStatus::Checking,
                            Some(now),
                            None,
                            now,
                            old(self).probe_timeout(),
                            old(self).no_signal_timeout(),
                            f,
                        ),
                }),
    {
        let step = self.plan_tick(selection);
        let ghost opened_key: &str = arbitrary();
        let ghost opened_result: Result<S, String> = arbitrary();
        match step {
            PreviewStep::Stop => {
                return false;
            },
            PreviewStep::Open(id) => {
                let key = id.as_str();
                let result = factory.open(key, fps);
                proof {
                    opened_key = key;
                    opened_result = result;
                }
                if !self.opened(selection, result, now) {
                    assert(factory.opens(opened_key, fps, opened_result));
                    return false;
                }
            },
            PreviewStep::Poll => {},
        }
        let frame = match &self.source {
            Some(source) => match source.latest_frame_size() {
                Some((width, height)) => Some((width, height, source.device_name())),
                None => None,
            },
            None => {
                return false;
            },
        };
        assert(polled(self.held_source().unwrap(), frame));
        let got = self.observe(selection, frame, now);
        proof {
            if step is Open {
                assert(factory.opens(opened_key, fps, opened_result));
                assert(polled(opened_result->Ok_0, frame));
            }
        }
        got
    }
}

/// A running preview whose last frame is at least the no-signal timeout old
/// counts as stalled, and one that is younger does not.
pub proof fn lemma_stalled_after_timeout(
    info: PreviewInfo,
    opened_at: Option<Nanos>,
    last_frame_at: Nanos,
    now: Nanos,
    probe_timeout: Nanos,
    no_signal_timeout: Nanos,
)
    requires
        now >= last_frame_at,
    ensures
        stalled(
            VideoProbeStatus::Ready(info),
            opened_at,
            Some(last_frame_at),
            now,
            probe_timeout,
            no_signal_timeout,
        ) == (now - last_frame_at >= no_signal_timeout),
{
}

/// Only an opening or running preview can stall; a failed, silent,
/// unselected or disconnected one keeps its status.
pub proof fn lemma_only_live_previews_stall(
    status: VideoProbeStatus,
    opened_at: Option<Nanos>,
    last_frame_at: Option<Nanos>,
    now: Nanos,
    probe_timeout: Nanos,
    no_signal_timeout: Nanos,
)
    requires
        !(status is Checking),
        !(status is Ready),
    ensures
        !stalled(status, opened_at, last_frame_at, now, probe_timeout, no_signal_timeout),
{
}

} // verus!
