use ipkvm::config::{ConnectionSettings, DeviceRef, ManualSnapshot, MouseMode, Profile};
use ipkvm::connect::{
    elapsed_since, preview_refresh_action, PreviewRefreshAction, PreviewRuntime, PreviewSource,
    PreviewSourceFactory, NO_SIGNAL_TIMEOUT, PROBE_TIMEOUT,
};
use ipkvm::console::{
    device_labels, menu_command, milli_string, selected_label, ConnectRecord, ConsoleState,
    LanguageChoice, MenuAction, MenuCommand, ModalAction, ModalEffect, ModalKind, ModalState,
};
use ipkvm::input::SpecialKey;
use ipkvm::locale::AppLanguage;
use ipkvm::menus::{language_checked, menu_model, submenu_step, CloseBehavior, SubmenuFrame};
use ipkvm::session::{paste_step, toggled_language, video_field, FrameTracker, PasteStep, VideoField};
use ipkvm::profile::{apply_profile_to_selection, build_profile, selected_device_ref, MissingDevices};
use ipkvm::scale::{desired_window_size, FrameSize, ScaleMode};
use ipkvm::state::{
    ControlInfo, ControlProbeStatus, DeviceOption, DeviceSelectionState, PreviewInfo,
    VideoProbeStatus,
};

const MS: u64 = 1_000_000;

fn option(id: &str, label: &str) -> DeviceOption {
    DeviceOption { id: id.into(), label: label.into() }
}

fn ready_control(baud: u32) -> ControlProbeStatus {
    ControlProbeStatus::Ready(ControlInfo { version: 0x31, usb_enumerated: true, baud })
}

fn profile() -> Profile {
    Profile {
        name: "office".into(),
        video_device: Some(DeviceRef { id: "cam0".into(), label: "Camera 0".into() }),
        control_device: Some(DeviceRef { id: "COM9".into(), label: "CH9329 (COM9)".into() }),
        connection: ConnectionSettings::default(),
    }
}

fn selection() -> DeviceSelectionState {
    DeviceSelectionState {
        video_devices: vec![option("cam0", "Camera 0")],
        control_devices: vec![option("COM9", "CH9329 (COM9)")],
        selected_video_id: Some("cam0".into()),
        selected_control_id: Some("COM9".into()),
        ..DeviceSelectionState::default()
    }
}

#[test]
fn connect_preview_timeout_only_moves_checking_to_no_signal() {
    let t0: u64 = 10_000 * MS;
    assert!(!elapsed_since(None, 1_000 * MS, t0 + 2_000 * MS));
    assert!(elapsed_since(Some(t0), 1_000 * MS, t0 + 2_000 * MS));
}

#[test]
fn app_preview_timeout_only_moves_checking_to_no_signal() {
    let now: u64 = 10_000 * MS;
    let opened = now - PROBE_TIMEOUT - MS;
    assert!(elapsed_since(Some(opened), PROBE_TIMEOUT, now));
    assert!(!elapsed_since(Some(now), PROBE_TIMEOUT, now));
    assert!(!elapsed_since(None, PROBE_TIMEOUT, now));
}

#[test]
fn preview_refresh_skips_when_already_running_or_checking() {
    for status in [
        VideoProbeStatus::Ready(PreviewInfo { width: 1920, height: 1080, label: "cam".into() }),
        VideoProbeStatus::Checking,
        VideoProbeStatus::NotSelected,
    ] {
        assert_eq!(preview_refresh_action(&status, true), PreviewRefreshAction::Skip);
    }
}

#[test]
fn app_preview_refresh_reopens_on_failure_or_no_signal() {
    for status in [VideoProbeStatus::OpenFailed("boom".into()), VideoProbeStatus::NoSignal] {
        assert_eq!(preview_refresh_action(&status, true), PreviewRefreshAction::Reopen);
        assert_eq!(preview_refresh_action(&status, false), PreviewRefreshAction::Reopen);
    }
}

#[test]
fn app_preview_refresh_keeps_disconnected_when_device_gone_and_reopens_when_back() {
    assert_eq!(
        preview_refresh_action(&VideoProbeStatus::Disconnected, false),
        PreviewRefreshAction::KeepDisconnected
    );
    assert_eq!(
        preview_refresh_action(&VideoProbeStatus::Disconnected, true),
        PreviewRefreshAction::Reopen
    );
}

#[test]
fn preview_refresh_skips_when_ready_or_checking_or_not_selected() {
    let cases = [
        (VideoProbeStatus::Ready(PreviewInfo { width: 1, height: 1, label: "x".into() }), true),
        (VideoProbeStatus::Checking, false),
        (VideoProbeStatus::NotSelected, true),
    ];
    for (status, present) in cases {
        assert_eq!(preview_refresh_action(&status, present), PreviewRefreshAction::Skip);
    }
}

#[test]
fn state_connect_requires_video_ready_and_control_ready() {
    let mut state = DeviceSelectionState {
        video_status: VideoProbeStatus::Ready(PreviewInfo {
            width: 1920,
            height: 1080,
            label: "capture".into(),
        }),
        control_status: ControlProbeStatus::NoResponse,
        ..DeviceSelectionState::default()
    };
    assert!(!state.can_connect());
    state.control_status = ready_control(115200);
    assert!(state.can_connect());
}

#[test]
fn state_refresh_marks_missing_selected_devices_disconnected() {
    let mut state = DeviceSelectionState {
        video_devices: vec![option("cam0", "Camera 0")],
        control_devices: vec![option("COM9", "COM9")],
        selected_video_id: Some("cam0".into()),
        selected_control_id: Some("COM9".into()),
        video_status: VideoProbeStatus::Ready(PreviewInfo {
            width: 640,
            height: 480,
            label: "Camera 0".into(),
        }),
        control_status: ready_control(115200),
    };
    state.refresh_devices(Vec::new(), Vec::new());
    assert_eq!(state.video_status, VideoProbeStatus::Disconnected);
    assert_eq!(state.control_status, ControlProbeStatus::Disconnected);
    assert!(!state.can_connect());
}

#[test]
fn refresh_twice_with_the_same_lists_changes_nothing_more() {
    let mut state = selection();
    state.video_status = VideoProbeStatus::Checking;
    state.refresh_devices(vec![option("cam1", "Other")], vec![option("COM9", "COM9")]);
    assert_eq!(state.video_status, VideoProbeStatus::Disconnected);
    assert_eq!(state.control_status, ControlProbeStatus::NotSelected);
    state.refresh_devices(vec![option("cam1", "Other")], vec![option("COM9", "COM9")]);
    assert_eq!(state.video_status, VideoProbeStatus::Disconnected);
    assert_eq!(state.control_status, ControlProbeStatus::NotSelected);
}

#[test]
fn state_mark_control_offline_sets_disconnected_status() {
    let mut state =
        DeviceSelectionState { control_status: ready_control(115200), ..DeviceSelectionState::default() };
    state.mark_control_offline();
    assert_eq!(state.control_status, ControlProbeStatus::Disconnected);
}

#[test]
fn record_control_probe_stamps_baud_into_ready_result() {
    let mut state = DeviceSelectionState::default();
    state.record_control_probe(57600, ready_control(0));
    assert_eq!(state.control_status, ready_control(57600));
    state.record_control_probe(9600, ControlProbeStatus::NoResponse);
    assert_eq!(state.control_status, ControlProbeStatus::NoResponse);
}

#[test]
fn apply_profile_selects_matching_devices() {
    let mut state = DeviceSelectionState {
        video_devices: vec![option("cam0", "Camera 0")],
        control_devices: vec![option("COM9", "CH9329 (COM9)")],
        ..DeviceSelectionState::default()
    };
    let missing = apply_profile_to_selection(&mut state, &profile());
    assert_eq!(missing, MissingDevices::default());
    assert_eq!(state.selected_video_id.as_deref(), Some("cam0"));
    assert_eq!(state.selected_control_id.as_deref(), Some("COM9"));
    assert_eq!(state.video_status, VideoProbeStatus::Checking);
    assert_eq!(state.control_status, ControlProbeStatus::Checking);
}

#[test]
fn apply_profile_clears_missing_devices_and_reports() {
    let mut state = DeviceSelectionState {
        video_devices: vec![option("other", "Other")],
        control_devices: vec![option("COM9", "CH9329 (COM9)")],
        selected_video_id: Some("other".into()),
        selected_control_id: Some("COM9".into()),
        ..DeviceSelectionState::default()
    };
    let missing = apply_profile_to_selection(&mut state, &profile());
    assert!(missing.video && !missing.control);
    assert_eq!(state.selected_video_id, None);
    assert_eq!(state.video_status, VideoProbeStatus::NotSelected);
    assert_eq!(state.selected_control_id.as_deref(), Some("COM9"));
}

#[test]
fn selected_device_ref_falls_back_to_id_when_missing() {
    let devices = vec![option("cam0", "Camera 0")];
    assert_eq!(
        selected_device_ref(&devices, Some("cam0")),
        Some(DeviceRef { id: "cam0".into(), label: "Camera 0".into() })
    );
    assert_eq!(
        selected_device_ref(&devices, Some("gone")),
        Some(DeviceRef { id: "gone".into(), label: "gone".into() })
    );
    assert_eq!(selected_device_ref(&devices, None), None);
}

#[test]
fn build_profile_captures_selection_and_connection() {
    let state = selection();
    let profile = build_profile("办公室".into(), &state, &ConnectionSettings::default());
    assert_eq!(profile.name, "办公室");
    assert_eq!(profile.video_device.as_ref().map(|d| d.id.as_str()), Some("cam0"));
    assert_eq!(profile.control_device.as_ref().map(|d| d.label.as_str()), Some("CH9329 (COM9)"));
}

#[test]
fn saved_profile_selects_the_same_devices_again() {
    let saved = build_profile("desk".into(), &selection(), &ConnectionSettings::default());
    let mut state = DeviceSelectionState {
        video_devices: vec![option("cam0", "Camera 0")],
        control_devices: vec![option("COM9", "CH9329 (COM9)")],
        ..DeviceSelectionState::default()
    };
    let missing = apply_profile_to_selection(&mut state, &saved);
    assert_eq!(missing, MissingDevices::default());
    assert_eq!(state.selected_video_id.as_deref(), Some("cam0"));
    assert_eq!(state.selected_control_id.as_deref(), Some("COM9"));
}

#[test]
fn desired_window_size_only_for_resize_mode() {
    let frame = Some(FrameSize { width: 1920, height: 1080 });
    assert_eq!(
        desired_window_size(frame, ScaleMode::ResizeWindowToVideo),
        Some(FrameSize { width: 1920, height: 1080 })
    );
    assert_eq!(desired_window_size(frame, ScaleMode::FitWindow), None);
    assert_eq!(desired_window_size(None, ScaleMode::ResizeWindowToVideo), None);
}

#[derive(Debug, PartialEq)]
struct FakeSource {
    frame: Option<(u32, u32)>,
}

impl PreviewSource for FakeSource {
    fn frame_answers(&self, r: Option<(u32, u32)>) -> bool {
        r == self.frame
    }

    fn name_answers(&self, r: String) -> bool {
        r == "Mock Camera"
    }

    fn latest_frame_size(&self) -> Option<(u32, u32)> {
        self.frame
    }

    fn device_name(&self) -> String {
        "Mock Camera".into()
    }
}

struct FrameFactory;
struct EmptyFactory;
struct FailingFactory;

impl PreviewSourceFactory<FakeSource> for FrameFactory {
    fn opens(&self, _device_id: &str, _fps: u64, r: Result<FakeSource, String>) -> bool {
        let r = &r;
        r == &Ok(FakeSource { frame: Some((64, 48)) })
    }

    fn open(&self, _device_id: &str, _fps: u64) -> Result<FakeSource, String> {
        Ok(FakeSource { frame: Some((64, 48)) })
    }
}

impl PreviewSourceFactory<FakeSource> for EmptyFactory {
    fn opens(&self, _device_id: &str, _fps: u64, r: Result<FakeSource, String>) -> bool {
        let r = &r;
        r == &Ok(FakeSource { frame: None })
    }

    fn open(&self, _device_id: &str, _fps: u64) -> Result<FakeSource, String> {
        Ok(FakeSource { frame: None })
    }
}

impl PreviewSourceFactory<FakeSource> for FailingFactory {
    fn opens(&self, _device_id: &str, _fps: u64, r: Result<FakeSource, String>) -> bool {
        let r = &r;
        r == &Err("boom".to_string())
    }

    fn open(&self, _device_id: &str, _fps: u64) -> Result<FakeSource, String> {
        Err("boom".into())
    }
}

fn selected_cam() -> DeviceSelectionState {
    DeviceSelectionState { selected_video_id: Some("cam0".into()), ..DeviceSelectionState::default() }
}

#[test]
fn preview_tick_reaches_ready_with_frame() {
    let mut state = selected_cam();
    let mut preview: PreviewRuntime<FakeSource> = PreviewRuntime::new();
    assert!(preview.tick(&mut state, &FrameFactory, 30, 1_000 * MS));
    assert_eq!(
        state.video_status,
        VideoProbeStatus::Ready(PreviewInfo { width: 64, height: 48, label: "Mock Camera".into() })
    );
    assert!(preview.source().is_some());
}

#[test]
fn preview_tick_open_failure_sets_open_failed() {
    let mut state = selected_cam();
    let mut preview: PreviewRuntime<FakeSource> = PreviewRuntime::new();
    assert!(!preview.tick(&mut state, &FailingFactory, 30, 1_000 * MS));
    assert_eq!(state.video_status, VideoProbeStatus::OpenFailed("boom".into()));
}

#[test]
fn preview_tick_no_frame_times_out_to_no_signal() {
    let mut state = selected_cam();
    let mut preview: PreviewRuntime<FakeSource> = PreviewRuntime::new();
    let t0 = 1_000 * MS;
    assert!(!preview.tick(&mut state, &EmptyFactory, 30, t0));
    assert_eq!(state.video_status, VideoProbeStatus::Checking);
    assert!(!preview.tick(&mut state, &EmptyFactory, 30, t0 + PROBE_TIMEOUT));
    assert_eq!(state.video_status, VideoProbeStatus::NoSignal);
}

#[test]
fn preview_tick_stall_after_ready_moves_to_no_signal() {
    let mut state = selected_cam();
    let mut preview: PreviewRuntime<FakeSource> = PreviewRuntime::new();
    let t0 = 1_000 * MS;
    assert!(preview.tick(&mut state, &FrameFactory, 30, t0));
    let step = preview.plan_tick(&mut state);
    assert_eq!(step, ipkvm::connect::PreviewStep::Poll);
    assert!(!preview.observe(&mut state, None, t0 + NO_SIGNAL_TIMEOUT));
    assert_eq!(state.video_status, VideoProbeStatus::NoSignal);
}

#[test]
fn preview_tick_disconnected_never_reopens() {
    let mut state = DeviceSelectionState {
        selected_video_id: Some("cam0".into()),
        video_status: VideoProbeStatus::Disconnected,
        ..DeviceSelectionState::default()
    };
    let mut preview: PreviewRuntime<FakeSource> = PreviewRuntime::new();
    assert!(!preview.tick(&mut state, &FrameFactory, 30, 1_000 * MS));
    assert_eq!(state.video_status, VideoProbeStatus::Disconnected);
    assert!(preview.source().is_none());
}

fn console() -> ConsoleState {
    let mut console = ConsoleState::new(ConnectionSettings::default());
    console.selection.video_devices = vec![option("cam0", "Camera 0"), option("cam1", "Camera 1")];
    console.selection.control_devices = vec![option("COM9", "CH9329 (COM9)")];
    console
}

#[test]
fn settings_fields_update_connection() {
    let mut console = console();
    console.set_baud_rate(115200);
    console.set_auto_baud(false);
    console.set_preview_fps(15);
    console.set_mouse_mode(MouseMode::Relative);
    assert_eq!(console.connection.baud_rate, 115200);
    assert!(!console.connection.auto_baud);
    assert_eq!(console.connection.preview_fps, 15);
    assert_eq!(console.connection.mouse_mode, MouseMode::Relative);
}

#[test]
fn settings_modal_updates_default_connection() {
    let mut console = console();
    console.open_modal(ModalKind::Settings);
    let before = console.connection;
    console.apply_modal_action(ModalAction::SetBaudRate(9600));
    console.apply_modal_action(ModalAction::SetPreviewFps(15));
    console.apply_modal_action(ModalAction::SetAutoBaud(false));
    console.apply_modal_action(ModalAction::SetMouseMode(MouseMode::Absolute));
    console.apply_modal_action(ModalAction::SetRelativeSensitivity(2500));
    assert_eq!(console.default_connection.baud_rate, 9600);
    assert_eq!(console.default_connection.preview_fps, 15);
    assert!(!console.default_connection.auto_baud);
    assert_eq!(console.default_connection.mouse_mode, MouseMode::Absolute);
    assert_eq!(console.default_connection.relative_sensitivity_milli, 2500);
    assert_eq!(console.modal.sensitivity_text, "2.5");
    assert_eq!(console.connection, before);
}

#[test]
fn connection_dialog_edits_unlink_the_profile() {
    let mut console = console();
    console.apply_profile(profile());
    assert_eq!(console.active_profile.as_deref(), Some("office"));
    console.open_modal(ModalKind::Connection);
    assert_eq!(console.modal.baud_text, console.connection.baud_rate.to_string());
    console.apply_modal_action(ModalAction::BaudRateTextChanged(" 250000 ".into()));
    assert_eq!(console.connection.baud_rate, 115200, "typed rates are clamped");
    assert_eq!(console.modal.baud_text, " 250000 ");
    assert_eq!(console.active_profile, None);
    console.apply_modal_action(ModalAction::PreviewFpsTextChanged("0".into()));
    assert_eq!(console.connection.preview_fps, 1);
    console.apply_modal_action(ModalAction::PreviewFpsTextChanged("fast".into()));
    assert_eq!(console.connection.preview_fps, 1, "text that does not parse edits nothing");
    console.apply_modal_action(ModalAction::RestoreDefaults);
    assert_eq!(console.connection, console.default_connection);
    assert_eq!(console.modal.fps_text, console.default_connection.preview_fps.to_string());
}

#[test]
fn saving_over_a_taken_name_needs_confirmation() {
    let mut console = console();
    console.open_modal(ModalKind::SaveProfile);
    console.apply_modal_action(ModalAction::SaveNameChanged("  desk  ".into()));
    assert_eq!(console.apply_modal_action(ModalAction::Save), ModalEffect::SaveRequested);
    assert_eq!(console.save_target().as_deref(), Some("desk"));
    assert!(!console.save_pressed(true));
    assert!(console.modal.confirm_overwrite);
    assert!(console.save_pressed(true));
    console.profile_saved();
    assert_eq!(console.modal.open, None);
    assert!(!console.modal.confirm_overwrite);
    console.apply_modal_action(ModalAction::SaveNameChanged("   ".into()));
    assert_eq!(console.save_target(), None);
}

#[test]
fn selecting_devices_by_label() {
    let mut console = console();
    assert!(console.select_video("Camera 1"));
    assert_eq!(console.selection.selected_video_id.as_deref(), Some("cam1"));
    assert_eq!(console.selection.video_status, VideoProbeStatus::Checking);
    assert!(!console.select_video("Camera 7"));
    assert_eq!(console.control_for_label("CH9329 (COM9)").as_deref(), Some("COM9"));
    assert_eq!(console.control_for_label("nothing"), None);
    console.set_baud_rate(57600);
    console.record_control_selection("COM9".into(), ready_control(0));
    assert_eq!(console.selection.control_status, ready_control(57600));
    assert_eq!(
        selected_label(&console.selection.video_devices, &console.selection.selected_video_id).as_deref(),
        Some("Camera 1")
    );
    assert_eq!(selected_label(&console.selection.video_devices, &Some("gone".into())).as_deref(), Some(""));
    assert_eq!(device_labels(&console.selection.video_devices), vec!["Camera 0", "Camera 1"]);
}

#[test]
fn connect_request_and_record() {
    let mut console = console();
    assert!(console.connect_request().is_none());
    console.select_video("Camera 0");
    console.record_control_selection("COM9".into(), ready_control(0));
    let request = console.connect_request().unwrap();
    assert_eq!(request.video_device_id, "cam0");
    assert_eq!(request.control_device_id, "COM9");
    assert_eq!(
        console.connect_record(),
        ConnectRecord::LastManual(ManualSnapshot {
            video_device: Some(DeviceRef { id: "cam0".into(), label: "Camera 0".into() }),
            control_device: Some(DeviceRef { id: "COM9".into(), label: "CH9329 (COM9)".into() }),
            connection: ConnectionSettings::default(),
        })
    );
    console.apply_profile(profile());
    assert_eq!(console.connect_record(), ConnectRecord::RecentProfile("office".into()));
}

#[test]
fn last_manual_connection_is_prefilled() {
    let mut console = ConsoleState::new(ConnectionSettings::default());
    let connection = ConnectionSettings { baud_rate: 57600, ..ConnectionSettings::default() };
    console.prefill_last_manual(ManualSnapshot {
        video_device: Some(DeviceRef { id: "cam0".into(), label: "Camera 0".into() }),
        control_device: None,
        connection,
    });
    assert_eq!(console.connection, connection);
    assert_eq!(console.selection.selected_video_id.as_deref(), Some("cam0"));
    assert_eq!(console.selection.video_status, VideoProbeStatus::Checking);
    assert_eq!(console.selection.selected_control_id, None);
}

#[test]
fn refresh_reopens_failed_preview() {
    let mut console = console();
    console.select_video("Camera 0");
    console.selection.video_status = VideoProbeStatus::NoSignal;
    assert_eq!(console.refreshed(), PreviewRefreshAction::Reopen);
    assert_eq!(console.selection.video_status, VideoProbeStatus::Checking);
    console.selection.video_status = VideoProbeStatus::Disconnected;
    console.selection.video_devices = vec![];
    assert_eq!(console.refreshed(), PreviewRefreshAction::KeepDisconnected);
}

#[test]
fn menu_entries_dispatch_to_commands() {
    assert_eq!(menu_command(MenuAction::Simple("paste")), MenuCommand::Paste);
    assert_eq!(menu_command(MenuAction::Simple("save_screenshot")), MenuCommand::SaveScreenshot);
    assert_eq!(menu_command(MenuAction::Simple("exit")), MenuCommand::Exit);
    assert_eq!(menu_command(MenuAction::Simple("release_all")), MenuCommand::ReleaseAll);
    assert_eq!(menu_command(MenuAction::Simple("nonsense")), MenuCommand::Nothing);
    assert_eq!(
        menu_command(MenuAction::SpecialKey("AltTab".into())),
        MenuCommand::SendSpecial(SpecialKey::AltTab)
    );
    assert_eq!(menu_command(MenuAction::SpecialKey("Esc".into())), MenuCommand::Nothing);
    assert_eq!(
        menu_command(MenuAction::SetLanguage(LanguageChoice::English)),
        MenuCommand::SetLanguage(AppLanguage::English)
    );
    assert_eq!(
        menu_command(MenuAction::OpenModal(ModalKind::About)),
        MenuCommand::OpenModal(ModalKind::About)
    );
    assert_eq!(menu_command(MenuAction::LoadRecent("desk".into())), MenuCommand::LoadRecent("desk".into()));
}

#[test]
fn sensitivity_text_drops_trailing_zeros() {
    assert_eq!(milli_string(1000), "1");
    assert_eq!(milli_string(2500), "2.5");
    assert_eq!(milli_string(1250), "1.25");
    assert_eq!(milli_string(100), "0.1");
    assert_eq!(milli_string(5001), "5.001");
}

#[test]
fn menu_model_splits_recent_profiles_and_enables_entries() {
    let names: Vec<String> = ["a", "b", "c", "d", "e"].iter().map(|s| s.to_string()).collect();
    let model = menu_model(&names, true, AppLanguage::English, false, true);
    assert!(!model.disconnect_enabled);
    assert!(model.screenshot_enabled);
    assert!(!model.paste_enabled);
    assert_eq!(model.recent, vec!["a", "b", "c"]);
    assert_eq!(model.recent_more, vec!["d", "e"]);
    assert_eq!(model.checked_language, LanguageChoice::English);
    let few = menu_model(&names[..2].to_vec(), false, AppLanguage::System, true, false);
    assert_eq!(few.recent, vec!["a", "b"]);
    assert!(few.recent_more.is_empty());
    assert!(language_checked(LanguageChoice::System, AppLanguage::System));
    assert!(!language_checked(LanguageChoice::Chinese, AppLanguage::English));
}

#[test]
fn submenu_opens_on_hover_and_closes_on_outside_click() {
    let idle = SubmenuFrame {
        enabled: true,
        clicked: false,
        hovered: false,
        any_open: false,
        open: false,
        deepest: true,
        popup_clicked_elsewhere: false,
        root_clicked_elsewhere: false,
        any_click: false,
        pointer_in_popup: false,
        popup_has_pointer: false,
        popup_should_close: false,
        moving_towards_popup: false,
        hovering_menu: false,
        close_behavior: CloseBehavior::CloseOnClick,
    };
    let hover = submenu_step(SubmenuFrame { hovered: true, ..idle });
    assert!(hover.shown);
    assert_eq!(hover.set_open, Some(true));
    let blocked = submenu_step(SubmenuFrame { hovered: true, any_open: true, ..idle });
    assert!(!blocked.shown);
    let outside = submenu_step(SubmenuFrame {
        open: true,
        any_click: true,
        popup_clicked_elsewhere: true,
        root_clicked_elsewhere: true,
        ..idle
    });
    assert!(outside.close_menu);
    assert_eq!(outside.set_open, Some(false));
    let other_entry = submenu_step(SubmenuFrame { open: true, hovering_menu: true, ..idle });
    assert_eq!(other_entry.set_open, Some(false));
    assert!(!other_entry.close_menu);
    let disabled = submenu_step(SubmenuFrame { enabled: false, clicked: true, ..idle });
    assert!(!disabled.shown);
}

#[test]
fn session_frames_and_video_field() {
    let mut tracker = FrameTracker::new();
    assert!(tracker.offer(7, 100));
    assert!(!tracker.offer(7, 200));
    assert_eq!(tracker.last_at, Some(100));
    assert!(tracker.offer(8, 300));
    tracker.clear();
    assert_eq!(tracker.last_seq, None);
    let timeout = ipkvm::connect::DESKTOP_PREVIEW_TIMEOUT;
    assert_eq!(video_field(Some((640, 480)), Some(0), timeout - 1, timeout), VideoField::Size(640, 480));
    assert_eq!(video_field(Some((640, 480)), Some(0), timeout, timeout), VideoField::Stalled);
    assert_eq!(video_field(None, Some(0), 0, timeout), VideoField::NoSignal);
    assert_eq!(paste_step(Ok("hi".into())), PasteStep::Type("hi".into()));
    assert_eq!(paste_step(Ok(String::new())), PasteStep::Empty);
    assert_eq!(paste_step(Err("locked".into())), PasteStep::Failed("locked".into()));
    assert_eq!(toggled_language(true), AppLanguage::English);
    assert_eq!(toggled_language(false), AppLanguage::Chinese);
}

#[test]
fn closing_a_dialog_keeps_what_was_typed() {
    let mut modal = ModalState::default();
    modal.open = Some(ModalKind::SaveProfile);
    modal.save_name = "rack-3".into();
    modal.close();
    assert_eq!(modal.open, None);
    assert_eq!(modal.save_name, "rack-3");
}

#[test]
fn detection_failure_keeps_selection_and_success_replaces_it() {
    let mut console = ConsoleState::new(ConnectionSettings::default());
    console.selection.selected_video_id = Some("cam0".into());
    console.selection.video_status = VideoProbeStatus::Disconnected;
    let failure = console.refresh_detected(Err(ipkvm::probe::ProbeError::VideoList("gone".into())));
    assert_eq!(failure, Err(ipkvm::probe::ProbeError::VideoList("gone".into())));
    assert_eq!(console.selection.video_status, VideoProbeStatus::Disconnected);
    assert!(console.selection.video_devices.is_empty());

    let mut detected = console.selection.clone();
    detected.video_devices = vec![option("cam0", "Camera")];
    let action = console.refresh_detected(Ok(detected));
    assert_eq!(action, Ok(PreviewRefreshAction::Reopen));
    assert_eq!(console.selection.video_devices, vec![option("cam0", "Camera")]);
    assert_eq!(console.selection.video_status, VideoProbeStatus::Checking);
}

struct CountingFailingFactory {
    calls: std::cell::Cell<u32>,
}

impl PreviewSourceFactory<FakeSource> for CountingFailingFactory {
    fn opens(&self, _device_id: &str, _fps: u64, r: Result<FakeSource, String>) -> bool {
        r == Err("boom".to_string())
    }

    fn open(&self, _device_id: &str, _fps: u64) -> Result<FakeSource, String> {
        self.calls.set(self.calls.get() + 1);
        Err("boom".into())
    }
}

#[test]
fn failed_open_is_not_retried_on_the_same_device() {
    let mut state = selected_cam();
    let mut preview: PreviewRuntime<FakeSource> = PreviewRuntime::new();
    let factory = CountingFailingFactory { calls: std::cell::Cell::new(0) };
    assert!(!preview.tick(&mut state, &factory, 30, 0));
    assert_eq!(state.video_status, VideoProbeStatus::OpenFailed("boom".into()));
    assert!(preview.source().is_none());
    assert!(!preview.tick(&mut state, &factory, 30, 10_000_000_000));
    assert_eq!(state.video_status, VideoProbeStatus::OpenFailed("boom".into()));
    assert_eq!(factory.calls.get(), 1);
}
