//! Which message of the locale tables each status and choice of the consoles
//! shows: the message key and the values put into it.

use vstd::prelude::*;
use crate::config::MouseMode;
use crate::console::ModalKind;
use crate::scale::ScaleMode;
use crate::state::{ControlProbeStatus, VideoProbeStatus};
use crate::text::{decimal_digits, decimal_string};

verus! {

/// A message of the locale tables: its key and its named arguments, in the
/// order the text names them.
#[derive(Debug, PartialEq, Eq)]
pub struct LocalizedText {
    pub key: String,
    pub args: Vec<(String, String)>,
}

/// A message key with its arguments, as text.
pub type MessageSpec = (Seq<char>, Seq<(Seq<char>, Seq<char>)>);

/// `t` is the message `m`.
pub open spec fn says(t: LocalizedText, m: MessageSpec) -> bool {
    &&& t.key@ == m.0
    &&& t.args@.len() == m.1.len()
    &&& forall|i: int|
        0 <= i < m.1.len() ==> (#[trigger] t.args@[i]).0@ == m.1[i].0 && t.args@[i].1@ == m.1[i].1
}

fn plain(key: &str) -> (r: LocalizedText)
    ensures
        says(r, (key@, seq![])),
{
    LocalizedText { key: String::from_str(key), args: Vec::new() }
}

fn with_arg(key: &str, name: &str, value: String) -> (r: LocalizedText)
    ensures
        says(r, (key@, seq![(name@, value@)])),
{
    let mut args: Vec<(String, String)> = Vec::new();
    args.push((String::from_str(name), value));
    LocalizedText { key: String::from_str(key), args }
}

/// The message of a video probe status.
pub open spec fn video_status_message(s: VideoProbeStatus) -> MessageSpec {
    match s {
        VideoProbeStatus::NotSelected => ("video_status.not_selected"@, seq![]),
        VideoProbeStatus::Checking => ("video_status.checking"@, seq![]),
        VideoProbeStatus::Ready(info) => (
            "video_status.ready"@,
            seq![
                ("width"@, decimal_digits(info.width as nat)),
                ("height"@, decimal_digits(info.height as nat)),
                ("label"@, info.label@),
            ],
        ),
        VideoProbeStatus::NoSignal => ("video_status.no_signal"@, seq![]),
        VideoProbeStatus::OpenFailed(e) => ("video_status.open_failed"@, seq![("error"@, e@)]),
        VideoProbeStatus::Disconnected => ("video_status.disconnected"@, seq![]),
    }
}

/// The port shown for a ready control device: its id, or `?` without one.
pub open spec fn port_text(port: Option<&str>) -> Seq<char> {
    match port {
        Some(p) => p@,
        None => "?"@,
    }
}

/// The message of a control probe status in the status bar, where the
/// device's port is `port`.
pub open spec fn control_status_message(s: ControlProbeStatus, port: Option<&str>) -> MessageSpec {
    match s {
        ControlProbeStatus::NotSelected => ("control_status.not_selected"@, seq![]),
        ControlProbeStatus::Checking => ("control_status.checking"@, seq![]),
        ControlProbeStatus::Ready(_) => (
            "control_status.ready"@,
            seq![("port"@, port_text(port))],
        ),
        ControlProbeStatus::NotCh9329(reason) => (
            "control_status.not_ch9329"@,
            seq![("reason"@, reason@)],
        ),
        ControlProbeStatus::NoResponse => ("control_status.no_response"@, seq![]),
        ControlProbeStatus::OpenFailed(e) => (
            "control_status.open_failed"@,
            seq![("error"@, e@)],
        ),
        ControlProbeStatus::Disconnected => ("control_status.offline"@, seq![]),
    }
}

/// The message of a control probe status beside the device choice.
pub open spec fn control_label_message(s: ControlProbeStatus, port: Option<&str>) -> MessageSpec {
    match s {
        ControlProbeStatus::NotSelected => ("control_status_label.not_selected"@, seq![]),
        ControlProbeStatus::Checking => ("control_status_label.checking"@, seq![]),
        ControlProbeStatus::Ready(_) => (
            "control_status_label.ready"@,
            seq![("port"@, port_text(port))],
        ),
        ControlProbeStatus::NotCh9329(reason) => (
            "control_status_label.not_ch9329"@,
            seq![("reason"@, reason@)],
        ),
        ControlProbeStatus::NoResponse => ("control_status_label.no_response"@, seq![]),
        ControlProbeStatus::OpenFailed(e) => (
            "control_status_label.open_failed"@,
            seq![("error"@, e@)],
        ),
        ControlProbeStatus::Disconnected => ("control_status_label.disconnected"@, seq![]),
    }
}

/// The video probe status as a message (see [`video_status_message`]).
pub fn video_status_text(status: &VideoProbeStatus) -> (r: LocalizedText)
    ensures
        says(r, video_status_message(*status)),
{
    match status {
        VideoProbeStatus::NotSelected => plain("video_status.not_selected"),
        VideoProbeStatus::Checking => plain("video_status.checking"),
        VideoProbeStatus::Ready(info) => {
            let mut args: Vec<(String, String)> = Vec::new();
            args.push((String::from_str("width"), decimal_string(info.width as u64)));
            args.push((String::from_str("height"), decimal_string(info.height as u64)));
            args.push((String::from_str("label"), info.label.clone()));
            LocalizedText { key: String::from_str("video_status.ready"), args }
        },
        VideoProbeStatus::NoSignal => plain("video_status.no_signal"),
        VideoProbeStatus::OpenFailed(e) => with_arg("video_status.open_failed", "error", e.clone()),
        VideoProbeStatus::Disconnected => plain("video_status.disconnected"),
    }
}

fn port_string(port: Option<&str>) -> (r: String)
    ensures
        r@ == port_text(port),
{
    match port {
        Some(p) => String::from_str(p),
        None => String::from_str("?"),
    }
}

/// The control probe status as a status-bar message (see
/// [`control_status_message`]).
pub fn control_status_text(status: &ControlProbeStatus, port: Option<&str>) -> (r: LocalizedText)
    ensures
        says(r, control_status_message(*status, port)),
{
    match status {
        ControlProbeStatus::NotSelected => plain("control_status.not_selected"),
        ControlProbeStatus::Checking => plain("control_status.checking"),
        ControlProbeStatus::Ready(_) => with_arg("control_status.ready", "port", port_string(port)),
        ControlProbeStatus::NotCh9329(reason) => with_arg(
            "control_status.not_ch9329",
            "reason",
            reason.clone(),
        ),
        ControlProbeStatus::NoResponse => plain("control_status.no_response"),
        ControlProbeStatus::OpenFailed(e) => with_arg(
            "control_status.open_failed",
            "error",
            e.clone(),
        ),
        ControlProbeStatus::Disconnected => plain("control_status.offline"),
    }
}

/// The control probe status as the message beside the device choice (see
/// [`control_label_message`]).
pub fn control_status_label(status: &ControlProbeStatus, port: Option<&str>) -> (r: LocalizedText)
    ensures
        says(r, control_label_message(*status, port)),
{
    match status {
        ControlProbeStatus::NotSelected => plain("control_status_label.not_selected"),
        ControlProbeStatus::Checking => plain("control_status_label.checking"),
        ControlProbeStatus::Ready(_) => with_arg(
            "control_status_label.ready",
            "port",
            port_string(port),
        ),
        ControlProbeStatus::NotCh9329(reason) => with_arg(
            "control_status_label.not_ch9329",
            "reason",
            reason.clone(),
        ),
        ControlProbeStatus::NoResponse => plain("control_status_label.no_response"),
        ControlProbeStatus::OpenFailed(e) => with_arg(
            "control_status_label.open_failed",
            "error",
            e.clone(),
        ),
        ControlProbeStatus::Disconnected => plain("control_status_label.disconnected"),
    }
}

/// The control field of the status bar: `status.offline` while the control
/// device is offline, else the probe status (see [`control_status_message`]).
pub fn control_field_text(offline: bool, status: &ControlProbeStatus, port: Option<&str>) -> (r:
    LocalizedText)
    ensures
        offline ==> says(r, ("status.offline"@, seq![])),
        !offline ==> says(r, control_status_message(*status, port)),
{
    if offline {
        plain("status.offline")
    } else {
        control_status_text(status, port)
    }
}

/// The message naming a mouse mode.
pub fn mouse_mode_label(mode: MouseMode) -> (r: LocalizedText)
    ensures
        says(
            r,
            (
                match mode {
                    MouseMode::Absolute => "mouse_mode.absolute"@,
                    MouseMode::Relative => "mouse_mode.relative"@,
                },
                seq![],
            ),
        ),
{
    match mode {
        MouseMode::Absolute => plain("mouse_mode.absolute"),
        MouseMode::Relative => plain("mouse_mode.relative"),
    }
}

/// The message naming a scale mode.
pub fn scale_mode_label(mode: ScaleMode) -> (r: LocalizedText)
    ensures
        says(
            r,
            (
                match mode {
                    ScaleMode::FitWindow => "scale_mode.fit_window"@,
                    ScaleMode::ActualSize => "scale_mode.actual_size"@,
                    ScaleMode::ResizeWindowToVideo => "scale_mode.resize_to_video"@,
                },
                seq![],
            ),
        ),
{
    match mode {
        ScaleMode::FitWindow => plain("scale_mode.fit_window"),
        ScaleMode::ActualSize => plain("scale_mode.actual_size"),
        ScaleMode::ResizeWindowToVideo => plain("scale_mode.resize_to_video"),
    }
}

/// The title of a dialog.
pub fn title_for(kind: ModalKind) -> (r: LocalizedText)
    ensures
        says(
            r,
            (
                match kind {
                    ModalKind::Settings => "modal.settings_title"@,
                    ModalKind::Connection => "modal.connection_title"@,
                    ModalKind::SaveProfile => "modal.save_title"@,
                    ModalKind::About => "modal.about_title"@,
                },
                seq![],
            ),
        ),
{
    match kind {
        ModalKind::Settings => plain("modal.settings_title"),
        ModalKind::Connection => plain("modal.connection_title"),
        ModalKind::SaveProfile => plain("modal.save_title"),
        ModalKind::About => plain("modal.about_title"),
    }
}

/// What the preview area shows when it has no picture: why, for a device
/// without signal or one that failed to open, else that there is none.
pub fn preview_placeholder(status: &VideoProbeStatus) -> (r: LocalizedText)
    ensures
        says(
            r,
            (
                match *status {
                    VideoProbeStatus::NoSignal => "preview.no_signal"@,
                    VideoProbeStatus::OpenFailed(_) => "preview.open_failed"@,
                    _ => "device.no_preview"@,
                },
                seq![],
            ),
        ),
{
    match status {
        VideoProbeStatus::NoSignal => plain("preview.no_signal"),
        VideoProbeStatus::OpenFailed(_) => plain("preview.open_failed"),
        _ => plain("device.no_preview"),
    }
}

/// The message shown when the control device went offline: with the reason
/// the session gave, or asking to reconnect when it gave none.
pub fn offline_message(reason: Option<&str>) -> (r: LocalizedText)
    ensures
        says(
            r,
            match reason {
                Some(text) => ("message.offline_with_reason"@, seq![("reason"@, text@)]),
                None => ("message.offline_reconnect"@, seq![]),
            },
        ),
{
    match reason {
        Some(text) => with_arg("message.offline_with_reason", "reason", String::from_str(text)),
        None => plain("message.offline_reconnect"),
    }
}

} // verus!
