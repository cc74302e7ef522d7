//! Device selection state of the connection page.

use vstd::prelude::*;

verus! {

/// One selectable device: a stable id and the label shown to the user.
#[derive(Debug, PartialEq, Eq)]
pub struct DeviceOption {
    pub id: String,
    pub label: String,
}

impl Clone for DeviceOption {
    fn clone(&self) -> (r: Self)
        ensures
            r == *self,
    {
        DeviceOption { id: self.id.clone(), label: self.label.clone() }
    }
}

/// What a successful video preview reports.
#[derive(Debug, PartialEq, Eq)]
pub struct PreviewInfo {
    pub width: u32,
    pub height: u32,
    pub label: String,
}

impl Clone for PreviewInfo {
    fn clone(&self) -> (r: Self)
        ensures
            r == *self,
    {
        PreviewInfo { width: self.width, height: self.height, label: self.label.clone() }
    }
}

/// What a successful CH9329 probe reports; `baud` is the baud rate the probe
/// succeeded with, i.e. the rate known to work.
#[derive(Clone, Copy, Debug, PartialEq, Eq, Structural)]
pub struct ControlInfo {
    pub version: u8,
    pub usb_enumerated: bool,
    pub baud: u32,
}

/// Probe state of the selected video device.
#[derive(Debug, PartialEq, Eq)]
pub enum VideoProbeStatus {
    NotSelected,
    Checking,
    Ready(PreviewInfo),
    NoSignal,
    OpenFailed(String),
    Disconnected,
}

impl Clone for VideoProbeStatus {
    fn clone(&self) -> (r: Self)
        ensures
            r == *self,
    {
        match self {
            VideoProbeStatus::NotSelected => VideoProbeStatus::NotSelected,
            VideoProbeStatus::Checking => VideoProbeStatus::Checking,
            VideoProbeStatus::Ready(info) => VideoProbeStatus::Ready(info.clone()),
            VideoProbeStatus::NoSignal => VideoProbeStatus::NoSignal,
            VideoProbeStatus::OpenFailed(e) => VideoProbeStatus::OpenFailed(e.clone()),
            VideoProbeStatus::Disconnected => VideoProbeStatus::Disconnected,
        }
    }
}

impl Default for VideoProbeStatus {
    fn default() -> (r: Self)
        ensures
            r is NotSelected,
    {
        VideoProbeStatus::NotSelected
    }
}

/// Probe state of the selected control (serial) device.
#[derive(Debug, PartialEq, Eq)]
pub enum ControlProbeStatus {
    NotSelected,
    Checking,
    Ready(ControlInfo),
    NotCh9329(String),
    NoResponse,
    OpenFailed(String),
    Disconnected,
}

impl Clone for ControlProbeStatus {
    fn clone(&self) -> (r: Self)
        ensures
            r == *self,
    {
        match self {
            ControlProbeStatus::NotSelected => ControlProbeStatus::NotSelected,
            ControlProbeStatus::Checking => ControlProbeStatus::Checking,
            ControlProbeStatus::Ready(info) => ControlProbeStatus::Ready(*info),
            ControlProbeStatus::NotCh9329(e) => ControlProbeStatus::NotCh9329(e.clone()),
            ControlProbeStatus::NoResponse => ControlProbeStatus::NoResponse,
            ControlProbeStatus::OpenFailed(e) => ControlProbeStatus::OpenFailed(e.clone()),
            ControlProbeStatus::Disconnected => ControlProbeStatus::Disconnected,
        }
    }
}

impl Default for ControlProbeStatus {
    fn default() -> (r: Self)
        ensures
            r is NotSelected,
    {
        ControlProbeStatus::NotSelected
    }
}

/// How the video frame is laid out in its container.
#[derive(Clone, Copy, Debug, PartialEq, Eq, Structural)]
pub enum VideoScaleMode {
    FitWindow,
    ActualSize,
    ResizeWindowToVideo,
}

impl Default for VideoScaleMode {
    fn default() -> (r: Self)
        ensures
            r == VideoScaleMode::FitWindow,
    {
        VideoScaleMode::FitWindow
    }
}

/// Device lists, current selection and probe state of both devices.
#[derive(Debug)]
pub struct DeviceSelectionState {
    pub video_devices: Vec<DeviceOption>,
    pub control_devices: Vec<DeviceOption>,
    pub selected_video_id: Option<String>,
    pub selected_control_id: Option<String>,
    pub video_status: VideoProbeStatus,
    pub control_status: ControlProbeStatus,
}

impl Clone for DeviceSelectionState {
    fn clone(&self) -> (r: Self)
        ensures
            r.video_devices@ == self.video_devices@,
            r.control_devices@ == self.control_devices@,
            r.selected_video_id == self.selected_video_id,
            r.selected_control_id == self.selected_control_id,
            r.video_status == self.video_status,
            r.control_status == self.control_status,
    {
        DeviceSelectionState {
            video_devices: clone_options(&self.video_devices),
            control_devices: clone_options(&self.control_devices),
            selected_video_id: self.selected_video_id.clone(),
            selected_control_id: self.selected_control_id.clone(),
            video_status: self.video_status.clone(),
            control_status: self.control_status.clone(),
        }
    }
}

impl Default for DeviceSelectionState {
    fn default() -> (r: Self)
        ensures
            r.video_devices@.len() == 0,
            r.control_devices@.len() == 0,
            r.selected_video_id is None,
            r.selected_control_id is None,
            r.video_status is NotSelected,
            r.control_status is NotSelected,
    {
        DeviceSelectionState {
            video_devices: Vec::new(),
            control_devices: Vec::new(),
            selected_video_id: None,
            selected_control_id: None,
            video_status: VideoProbeStatus::NotSelected,
            control_status: ControlProbeStatus::NotSelected,
        }
    }
}

/// Element-wise copy of a device list.
pub fn clone_options(devices: &Vec<DeviceOption>) -> (r: Vec<DeviceOption>)
    ensures
        r@ == devices@,
{
    let mut r: Vec<DeviceOption> = Vec::new();
    let mut i: usize = 0;
    while i < devices.len()
        invariant
            i <= devices@.len(),
            r@ == devices@.subrange(0, i as int),
        decreases devices@.len() - i,
    {
        r.push(devices[i].clone());
        i = i + 1;
    }
    r
}

/// Some device of the list carries this id.
pub open spec fn has_id(devices: Seq<DeviceOption>, id: Seq<char>) -> bool {
    exists|i: int| 0 <= i < devices.len() && (#[trigger] devices[i]).id@ == id
}

/// `i` is the first position of the list whose device carries this id.
pub open spec fn first_with_id(devices: Seq<DeviceOption>, id: Seq<char>, i: int) -> bool {
    &&& 0 <= i < devices.len()
    &&& devices[i].id@ == id
    &&& forall|j: int| 0 <= j < i ==> (#[trigger] devices[j]).id@ != id
}

/// Some device of the list carries this label.
pub open spec fn has_label(devices: Seq<DeviceOption>, label: Seq<char>) -> bool {
    exists|i: int| 0 <= i < devices.len() && (#[trigger] devices[i]).label@ == label
}

/// `i` is the first position of the list whose device carries this label.
pub open spec fn first_with_label(devices: Seq<DeviceOption>, label: Seq<char>, i: int) -> bool {
    &&& 0 <= i < devices.len()
    &&& devices[i].label@ == label
    &&& forall|j: int| 0 <= j < i ==> (#[trigger] devices[j]).label@ != label
}

/// Position of the first device with this id, if any.
pub fn find_by_id(devices: &Vec<DeviceOption>, id: &String) -> (r: Option<usize>)
    ensures
        match r {
            Some(i) => first_with_id(devices@, id@, i as int),
            None => !has_id(devices@, id@),
        },
{
    let mut i: usize = 0;
    while i < devices.len()
        invariant
            i <= devices@.len(),
            forall|j: int| 0 <= j < i ==> (#[trigger] devices@[j]).id@ != id@,
        decreases devices@.len() - i,
    {
        if devices[i].id == *id {
            return Some(i);
        }
        i = i + 1;
    }
    None
}

/// Position of the first device with this label, if any.
pub fn find_by_label(devices: &Vec<DeviceOption>, label: &String) -> (r: Option<usize>)
    ensures
        match r {
            Some(i) => first_with_label(devices@, label@, i as int),
            None => !has_label(devices@, label@),
        },
{
    let mut i: usize = 0;
    while i < devices.len()
        invariant
            i <= devices@.len(),
            forall|j: int| 0 <= j < i ==> (#[trigger] devices@[j]).label@ != label@,
        decreases devices@.len() - i,
    {
        if devices[i].label == *label {
            return Some(i);
        }
        i = i + 1;
    }
    None
}

/// The selected id names no device of the list.
pub open spec fn selected_missing(selected: Option<String>, devices: Seq<DeviceOption>) -> bool {
    match selected {
        Some(id) => !has_id(devices, id@),
        None => false,
    }
}

/// Video status after the lists were refreshed: disconnected when the
/// selected device is gone, else unchanged.
pub open spec fn refreshed_video_status(
    selected: Option<String>,
    devices: Seq<DeviceOption>,
    status: VideoProbeStatus,
) -> VideoProbeStatus {
    if selected_missing(selected, devices) {
        VideoProbeStatus::Disconnected
    } else {
        status
    }
}

/// Control status after the lists were refreshed: disconnected when the
/// selected device is gone, else unchanged.
pub open spec fn refreshed_control_status(
    selected: Option<String>,
    devices: Seq<DeviceOption>,
    status: ControlProbeStatus,
) -> ControlProbeStatus {
    if selected_missing(selected, devices) {
        ControlProbeStatus::Disconnected
    } else {
        status
    }
}

/// The status that a successful probe at `baud` leaves behind.
pub open spec fn stamped_probe(baud: u32, status: ControlProbeStatus) -> ControlProbeStatus {
    match status {
        ControlProbeStatus::Ready(info) => ControlProbeStatus::Ready(ControlInfo { baud, ..info }),
        other => other,
    }
}

impl DeviceSelectionState {
    /// Connecting needs a video device with a live preview and a control device
    /// that answered as a CH9329.
    pub fn can_connect(&self) -> (r: bool)
        ensures
            r == (self.video_status is Ready && self.control_status is Ready),
    {
        matches!(self.video_status, VideoProbeStatus::Ready(_))
            && matches!(self.control_status, ControlProbeStatus::Ready(_))
    }

    /// Replaces both device lists; a selected device that no longer appears is
    /// marked disconnected, everything else is kept.
    pub fn refresh_devices(&mut self, video: Vec<DeviceOption>, control: Vec<DeviceOption>)
        ensures
            final(self).video_devices@ == video@,
            final(self).control_devices@ == control@,
            final(self).selected_video_id == old(self).selected_video_id,
            final(self).selected_control_id == old(self).selected_control_id,
            final(self).video_status == refreshed_video_status(
                old(self).selected_video_id,
                video@,
                old(self).video_status,
            ),
            final(self).control_status == refreshed_control_status(
                old(self).selected_control_id,
                control@,
                old(self).control_status,
            ),
    {
        let selected_video_missing = match &self.selected_video_id {
            Some(id) => find_by_id(&video, id).is_none(),
            None => false,
        };
        let selected_control_missing = match &self.selected_control_id {
            Some(id) => find_by_id(&control, id).is_none(),
            None => false,
        };
        self.video_devices = video;
        self.control_devices = control;
        if selected_video_missing {
            self.video_status = VideoProbeStatus::Disconnected;
        }
        if selected_control_missing {
            self.control_status = ControlProbeStatus::Disconnected;
        }
    }

    /// The control device went away during a session.
    pub fn mark_control_offline(&mut self)
        ensures
            final(self).control_status is Disconnected,
            final(self).video_status == old(self).video_status,
            final(self).video_devices == old(self).video_devices,
            final(self).control_devices == old(self).control_devices,
            final(self).selected_video_id == old(self).selected_video_id,
            final(self).selected_control_id == old(self).selected_control_id,
    {
        self.control_status = ControlProbeStatus::Disconnected;
    }

    /// Records a probe result; a `Ready` result carries the baud rate it was
    /// obtained with, any other result is stored as given.
    pub fn record_control_probe(&mut self, baud: u32, status: ControlProbeStatus)
        ensures
            final(self).control_status == stamped_probe(baud, status),
            final(self).video_status == old(self).video_status,
            final(self).video_devices == old(self).video_devices,
            final(self).control_devices == old(self).control_devices,
            final(self).selected_video_id == old(self).selected_video_id,
            final(self).selected_control_id == old(self).selected_control_id,
    {
        self.control_status = match status {
            ControlProbeStatus::Ready(info) => ControlProbeStatus::Ready(
                ControlInfo { version: info.version, usb_enumerated: info.usb_enumerated, baud },
            ),
            other => other,
        };
    }
}

/// Refreshing twice with the same lists changes nothing the first refresh
/// did not: the selection is kept, so the same devices count as missing.
pub proof fn lemma_refresh_idempotent(
    video_selected: Option<String>,
    control_selected: Option<String>,
    video: Seq<DeviceOption>,
    control: Seq<DeviceOption>,
    video_status: VideoProbeStatus,
    control_status: ControlProbeStatus,
)
    ensures
        refreshed_video_status(
            video_selected,
            video,
            refreshed_video_status(video_selected, video, video_status),
        ) == refreshed_video_status(video_selected, video, video_status),
        refreshed_control_status(
            control_selected,
            control,
            refreshed_control_status(control_selected, control, control_status),
        ) == refreshed_control_status(control_selected, control, control_status),
{
}

/// A selected device that is still listed keeps its status across a refresh.
pub proof fn lemma_refresh_keeps_present(
    id: String,
    devices: Seq<DeviceOption>,
    status: VideoProbeStatus,
    i: int,
)
    requires
        0 <= i < devices.len(),
        devices[i].id@ == id@,
    ensures
        refreshed_video_status(Some(id), devices, status) == status,
{
    assert(has_id(devices, id@));
}

/// A successful probe always carries the baud rate it succeeded at.
pub proof fn lemma_probe_stamps_baud(baud: u32, status: ControlProbeStatus)
    requires
        status is Ready,
    ensures
        stamped_probe(baud, status) matches ControlProbeStatus::Ready(info) && info.baud == baud,
{
}

} // verus!
