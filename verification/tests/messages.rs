use ipkvm::config::MouseMode;
use ipkvm::console::ModalKind;
use ipkvm::messages::{
    control_field_text, control_status_label, offline_message, control_status_text, mouse_mode_label,
    preview_placeholder, scale_mode_label, title_for, video_status_text, LocalizedText,
};
use ipkvm::scale::ScaleMode;
use ipkvm::state::{ControlInfo, ControlProbeStatus, PreviewInfo, VideoProbeStatus};

fn message(key: &str, args: &[(&str, &str)]) -> LocalizedText {
    LocalizedText {
        key: key.to_string(),
        args: args.iter().map(|(n, v)| (n.to_string(), v.to_string())).collect(),
    }
}

fn ready() -> ControlProbeStatus {
    ControlProbeStatus::Ready(ControlInfo { version: 0x30, usb_enumerated: true, baud: 9600 })
}

#[test]
fn video_status_messages_carry_their_values() {
    let status = VideoProbeStatus::Ready(PreviewInfo {
        width: 1920,
        height: 1080,
        label: "USB Capture".into(),
    });
    assert_eq!(
        video_status_text(&status),
        message(
            "video_status.ready",
            &[("width", "1920"), ("height", "1080"), ("label", "USB Capture")]
        )
    );
    assert_eq!(
        video_status_text(&VideoProbeStatus::OpenFailed("busy".into())),
        message("video_status.open_failed", &[("error", "busy")])
    );
    assert_eq!(
        video_status_text(&VideoProbeStatus::Disconnected),
        message("video_status.disconnected", &[])
    );
    assert_eq!(
        video_status_text(&VideoProbeStatus::NotSelected),
        message("video_status.not_selected", &[])
    );
}

#[test]
fn control_status_messages_name_the_port() {
    assert_eq!(
        control_status_text(&ready(), Some("/dev/ttyUSB0")),
        message("control_status.ready", &[("port", "/dev/ttyUSB0")])
    );
    assert_eq!(
        control_status_text(&ready(), None),
        message("control_status.ready", &[("port", "?")])
    );
    assert_eq!(
        control_status_text(&ControlProbeStatus::Disconnected, None),
        message("control_status.offline", &[])
    );
    assert_eq!(
        control_status_label(&ControlProbeStatus::Disconnected, None),
        message("control_status_label.disconnected", &[])
    );
    assert_eq!(
        control_status_label(&ControlProbeStatus::NotCh9329("bad".into()), None),
        message("control_status_label.not_ch9329", &[("reason", "bad")])
    );
    assert_eq!(
        control_field_text(true, &ready(), Some("COM3")),
        message("status.offline", &[])
    );
    assert_eq!(
        control_field_text(false, &ControlProbeStatus::NoResponse, Some("COM3")),
        message("control_status.no_response", &[])
    );
}

#[test]
fn mode_titles_and_placeholders() {
    assert_eq!(mouse_mode_label(MouseMode::Relative), message("mouse_mode.relative", &[]));
    assert_eq!(
        scale_mode_label(ScaleMode::ResizeWindowToVideo),
        message("scale_mode.resize_to_video", &[])
    );
    assert_eq!(title_for(ModalKind::SaveProfile), message("modal.save_title", &[]));
    assert_eq!(
        preview_placeholder(&VideoProbeStatus::NoSignal),
        message("preview.no_signal", &[])
    );
    assert_eq!(
        preview_placeholder(&VideoProbeStatus::Checking),
        message("device.no_preview", &[])
    );
}

#[test]
fn offline_message_carries_the_reason() {
    assert_eq!(
        offline_message(Some("serial reset")),
        message("message.offline_with_reason", &[("reason", "serial reset")])
    );
    assert_eq!(offline_message(None), message("message.offline_reconnect", &[]));
}
