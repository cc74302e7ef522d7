use ipkvm::clipboard::{
    encode_screenshot_jpeg, read_clipboard_text, ClipboardError, ClipboardReader, ClipboardService,
};
use ipkvm::cursor::{CursorController, VisibilityGate};
use ipkvm::frame::{bgra_to_rgba, PixelFormat, RgbaFrame, VideoFrame};
use ipkvm::headless::{
    exec_line, init_system, initial_video_source_requested, join_args, log_request,
    no_init_message, openrc_script, selected_serial_path, selected_video_source, service_args,
    service_path, shell_escape, systemd_unit, video_source_choice, HeadlessOptions, InitSystem,
    SessionSelection, VideoSourceChoice,
};
use ipkvm::locale::{map_system_locale, AppLanguage};
use ipkvm::perf::FrameStats;
use ipkvm::status::{derive_status, ConnectionStatus};
use ipkvm::text::{decimal_string, parse_unsigned, trim};

struct FakeClipboard;
struct FailingClipboard;

impl ClipboardReader for FakeClipboard {
    fn answers(&self, r: Result<String, String>) -> bool {
        r == Ok("hello".to_string())
    }

    fn read_text(&self) -> Result<String, String> {
        Ok("hello".into())
    }
}

impl ClipboardReader for FailingClipboard {
    fn answers(&self, r: Result<String, String>) -> bool {
        r == Err("clipboard locked".to_string())
    }

    fn read_text(&self) -> Result<String, String> {
        Err("clipboard locked".into())
    }
}

#[test]
fn reader_trait_returns_text() {
    assert_eq!(read_clipboard_text(&FakeClipboard), Ok("hello".into()));
    assert!(FakeClipboard.answers(read_clipboard_text(&FakeClipboard)));
}

#[test]
fn reader_error_propagates() {
    assert_eq!(read_clipboard_text(&FailingClipboard), Err("clipboard locked".into()));
}

#[test]
fn empty_screenshots_are_refused_before_the_clipboard() {
    let empty = RgbaFrame { width: 0, height: 4, pixels: vec![] };
    assert_eq!(ClipboardService::copy_image(&empty), Err(ClipboardError::EmptyFrame));
    assert_eq!(encode_screenshot_jpeg(&empty), Err(ClipboardError::EmptyFrame));
    let huge = RgbaFrame { width: 70_000, height: 1, pixels: vec![] };
    assert_eq!(encode_screenshot_jpeg(&huge), Err(ClipboardError::DimensionsTooLarge));
}

#[test]
fn screenshots_encode_as_jpeg() {
    let frame = RgbaFrame { width: 2, height: 2, pixels: vec![200; 16] };
    let bytes = encode_screenshot_jpeg(&frame).unwrap();
    assert_eq!(&bytes[..2], &[0xff, 0xd8]);
    let short = RgbaFrame { width: 2, height: 2, pixels: vec![0; 4] };
    assert!(matches!(encode_screenshot_jpeg(&short), Err(ClipboardError::Jpeg(_))));
}

#[test]
fn locale_chinese_system_locales_map_to_zh_cn() {
    for locale in ["zh-CN", "zh-Hans-CN", "zh-TW", "zh-SG"] {
        assert_eq!(map_system_locale(Some(locale)), "zh-CN");
    }
}

#[test]
fn chinese_system_locales_map_to_zh_cn() {
    for locale in ["zh-CN", "zh-Hans-CN", "zh-TW", "zh-SG"] {
        assert_eq!(map_system_locale(Some(locale)), "zh-CN");
    }
}

#[test]
fn locale_non_chinese_system_locales_map_to_en() {
    for locale in ["en-US", "en-SG", "ja-JP", "de-DE"] {
        assert_eq!(map_system_locale(Some(locale)), "en");
    }
}

#[test]
fn non_chinese_system_locales_map_to_en() {
    for locale in ["en-US", "en-SG", "ja-JP", "de-DE"] {
        assert_eq!(map_system_locale(Some(locale)), "en");
    }
}

#[test]
fn locale_undetectable_system_locale_falls_back_to_zh_cn() {
    assert_eq!(map_system_locale(None), "zh-CN");
}

#[test]
fn undetectable_system_locale_falls_back_to_zh_cn() {
    assert_eq!(map_system_locale(None), "zh-CN");
}

#[test]
fn explicit_languages_apply_matching_locales() {
    rust_i18n::set_locale("en");
    AppLanguage::Chinese.apply();
    assert_eq!(&*rust_i18n::locale(), "zh-CN");
    AppLanguage::English.apply();
    assert_eq!(&*rust_i18n::locale(), "en");
    rust_i18n::set_locale("zh-CN");
}

#[test]
fn visibility_gate_only_passes_on_change() {
    let mut gate = VisibilityGate::new();
    assert!(gate.update(false));
    let mut gate = VisibilityGate::new();
    assert!(gate.update(true));
    let mut gate = VisibilityGate::new();
    assert!(gate.update(true));
    assert!(!gate.update(true));
    assert!(gate.update(false));
    assert!(!gate.update(false));
    assert!(gate.update(true));
}

#[test]
fn disconnected_when_not_connected() {
    assert_eq!(derive_status(false, false, Some("serial reset".into())), ConnectionStatus::Disconnected);
}

#[test]
fn connected_when_online_without_reason() {
    assert_eq!(derive_status(true, true, None), ConnectionStatus::Connected);
}

#[test]
fn control_offline_carries_reason() {
    assert_eq!(
        derive_status(true, false, Some("serial write failed".into())),
        ConnectionStatus::ControlOffline("serial write failed".into())
    );
}

#[test]
fn work_view_without_ready_control_is_connecting() {
    assert_eq!(derive_status(true, false, None), ConnectionStatus::Connecting);
}

#[test]
fn labels_are_nonempty_and_distinct() {
    for zh in [true, false] {
        for s in [
            ConnectionStatus::Disconnected,
            ConnectionStatus::Connecting,
            ConnectionStatus::Connected,
            ConnectionStatus::ControlOffline("x".into()),
        ] {
            assert!(!s.label(zh).is_empty());
        }
    }
    assert_ne!(ConnectionStatus::Connected.label(true), ConnectionStatus::Connected.label(false));
}

fn bgra_frame(width: u32, height: u32, stride: u32, data: Vec<u8>) -> VideoFrame {
    VideoFrame { seq: 1, width, height, stride, pixel_format: PixelFormat::Bgra8888, data }
}

#[test]
fn bgra_to_rgba_swaps_channels() {
    let rgba = bgra_to_rgba(&bgra_frame(1, 1, 4, vec![0, 1, 2, 255])).unwrap();
    assert_eq!(rgba, RgbaFrame { width: 1, height: 1, pixels: vec![2, 1, 0, 255] });
}

#[test]
fn bgra_to_rgba_honors_stride_padding() {
    let frame = bgra_frame(1, 2, 8, vec![0, 1, 2, 255, 9, 9, 9, 9, 3, 4, 5, 255, 8, 8, 8, 8]);
    assert_eq!(bgra_to_rgba(&frame).unwrap().pixels, vec![2, 1, 0, 255, 5, 4, 3, 255]);
}

#[test]
fn bgra_to_rgba_rejects_unsupported_pixel_format() {
    let frame = VideoFrame {
        seq: 1,
        width: 1,
        height: 1,
        stride: 3,
        pixel_format: PixelFormat::Yuy2,
        data: vec![0, 1, 2],
    };
    assert_eq!(
        bgra_to_rgba(&frame),
        Err("unsupported preview pixel format: Yuy2".to_string())
    );
}

#[test]
fn bgra_to_rgba_rejects_truncated_data() {
    assert_eq!(
        bgra_to_rgba(&bgra_frame(2, 2, 8, vec![0; 4])),
        Err("frame data too short: need 16 bytes, got 4".to_string())
    );
}

#[test]
fn frame_stats_record_in_arrival_order() {
    let mut stats = FrameStats::new();
    stats.record_at(5);
    stats.record_at(9);
    assert_eq!(stats.timestamps(), &[5, 9]);
}

#[test]
fn numbers_print_and_parse_back() {
    for n in [0u64, 7, 10, 9600, 115200, u64::MAX] {
        let text = decimal_string(n);
        assert_eq!(text, n.to_string());
        assert_eq!(parse_unsigned(&text, u64::MAX), Some(n));
    }
    assert_eq!(parse_unsigned("+42", 100), Some(42));
    assert_eq!(parse_unsigned("101", 100), None);
    assert_eq!(parse_unsigned("", 100), None);
    assert_eq!(parse_unsigned("+", 100), None);
    assert_eq!(parse_unsigned("-1", 100), None);
    assert_eq!(parse_unsigned("4 2", 100), None);
    assert_eq!(parse_unsigned("4294967296", u32::MAX as u64), None);
    assert_eq!(trim("\t 57600 \n"), "57600");
    assert_eq!(trim("\u{3000}x\u{a0}"), "x");
    assert_eq!(trim("   "), "");
}

fn options() -> HeadlessOptions {
    HeadlessOptions {
        assets_dir: None,
        camera_name: None,
        serial_path: None,
        serial_baud: None,
        bind_address: "127.0.0.1".to_string(),
        tcp_port: 5900,
        http_port: 6080,
        frames_per_second: None,
        token: None,
        vnc_password: None,
        dirty_rects: false,
        dirty_rect_tile_size: None,
        log_file: None,
        log_level: None,
        log_categories: None,
    }
}

#[test]
fn no_explicit_video_source_does_not_start_initial_session() {
    assert!(!initial_video_source_requested(&options()));
}

#[test]
fn explicit_camera_or_assets_starts_initial_session() {
    let mut camera = options();
    camera.camera_name = Some("Fixture Camera".to_string());
    assert!(initial_video_source_requested(&camera));
    let mut assets = options();
    assets.assets_dir = Some("assets".to_string());
    assert!(initial_video_source_requested(&assets));
}

#[test]
fn input_log_config_uses_file_level_and_categories() {
    let mut options = options();
    options.log_file = Some("/tmp/ipkvm-headless-input.log".to_string());
    options.log_level = Some("debug".to_string());
    options.log_categories = Some("pointer,queue".to_string());
    let request = log_request(&options, None, None, None).unwrap();
    assert_eq!(request.path, "/tmp/ipkvm-headless-input.log");
    assert_eq!(request.level, "debug");
    assert_eq!(request.categories, "pointer,queue");
}

#[test]
fn input_log_config_can_be_enabled_from_environment_values() {
    let request = log_request(
        &options(),
        Some("/tmp/ipkvm-headless-env.log".to_string()),
        Some("trace".to_string()),
        Some("all".to_string()),
    )
    .unwrap();
    assert_eq!(request.path, "/tmp/ipkvm-headless-env.log");
    assert_eq!(request.level, "trace");
    assert_eq!(request.categories, "all");
    assert!(log_request(&options(), None, Some("debug".into()), None).is_none());
    let defaults = log_request(&options(), Some("x.log".into()), None, None).unwrap();
    assert_eq!(defaults.level, "trace");
    assert_eq!(defaults.categories, "input,pointer,queue,serial,lifecycle");
}

#[test]
fn assets_win_over_camera_and_nothing_is_an_error() {
    let mut o = options();
    o.camera_name = Some("cam".into());
    assert_eq!(video_source_choice(&o), Ok(VideoSourceChoice::Camera("cam".into())));
    o.assets_dir = Some("demo".into());
    o.dirty_rects = true;
    assert_eq!(
        video_source_choice(&o),
        Ok(VideoSourceChoice::Assets { dir: "demo".into(), tile: Some(32) })
    );
    assert!(video_source_choice(&options()).is_err());
}

#[test]
fn web_selection_overrides_sources() {
    let chosen = SessionSelection { video: Some("USB Capture".into()), serial: Some("  ".into()) };
    assert_eq!(
        selected_video_source(Some("cam".into()), Some("demo".into()), &chosen),
        (Some("USB Capture".to_string()), None)
    );
    assert_eq!(selected_serial_path(Some("/dev/ttyUSB0".into()), &chosen), None);
    let blank = SessionSelection { video: Some(" ".into()), serial: None };
    assert_eq!(
        selected_video_source(Some("cam".into()), None, &blank),
        (Some("cam".to_string()), None)
    );
    assert_eq!(selected_serial_path(Some("/dev/ttyUSB0".into()), &blank), Some("/dev/ttyUSB0".into()));
}

#[test]
fn service_command_line_lists_non_default_options() {
    let mut o = options();
    o.camera_name = Some("Bob's Cam".into());
    o.serial_path = Some("/dev/ttyUSB0".into());
    o.http_port = 80;
    o.frames_per_second = Some(15);
    let args = service_args(&o);
    assert_eq!(
        args,
        vec![
            "--camera 'Bob'\\''s Cam'".to_string(),
            "--serial '/dev/ttyUSB0'".to_string(),
            "--bind '127.0.0.1'".to_string(),
            "--fps 15".to_string(),
        ]
    );
    assert_eq!(
        exec_line("/usr/bin/kvm", &args),
        "/usr/bin/kvm --camera 'Bob'\\''s Cam' --serial '/dev/ttyUSB0' --bind '127.0.0.1' --fps 15"
    );
    let mut defaults = options();
    defaults.bind_address = "0.0.0.0".into();
    defaults.http_port = 80;
    assert!(service_args(&defaults).is_empty());
    assert_eq!(join_args(&Vec::new()), "");
    assert_eq!(shell_escape("it's"), "it'\\''s");
}

#[test]
fn service_files_for_each_init_system() {
    assert_eq!(init_system(true, true), Some(InitSystem::Systemd));
    assert_eq!(init_system(false, true), Some(InitSystem::OpenRc));
    assert_eq!(init_system(false, false), None);
    assert_eq!(no_init_message(), "未检测到支持的 init 系统（需要 systemd 或 openrc）");
    assert_eq!(service_path(InitSystem::Systemd, "kvm"), "/etc/systemd/system/kvm.service");
    assert_eq!(service_path(InitSystem::OpenRc, "kvm"), "/etc/init.d/kvm");
    let unit = systemd_unit("/usr/bin/kvm --tcp 5901");
    assert!(unit.starts_with("[Unit]\nDescription=MyKvm Headless Service\n"));
    assert!(unit.contains("\nExecStart=/usr/bin/kvm --tcp 5901\nRestart=on-failure\n"));
    assert!(unit.ends_with("WantedBy=multi-user.target\n"));
    let script = openrc_script("/usr/bin/kvm", "--tcp 5901", "kvm");
    assert!(script.starts_with("#!/sbin/openrc-run\n"));
    assert!(script.contains("command=\"/usr/bin/kvm\"\ncommand_args=\"--tcp 5901\"\n"));
    assert!(script.contains("pidfile=\"/run/kvm.pid\"\n\ndepend() {\n    need net\n}\n"));
}

#[test]
fn windows_url_argument_is_null_terminated_for_shell_execute() {
    let url = "https://github.com/kxn/MyKvm?from=menu";
    let encoded = ipkvm::platform::windows_url_argument(url);
    assert_eq!(encoded.last(), Some(&0));
    assert_eq!(String::from_utf16(&encoded[..encoded.len() - 1]).unwrap(), url);
}

#[test]
fn wide_text_uses_surrogate_pairs_beyond_the_basic_plane() {
    let encoded = ipkvm::platform::windows_url_argument("a😀中");
    let expected: Vec<u16> = "a😀中".encode_utf16().chain(std::iter::once(0)).collect();
    assert_eq!(encoded, expected);
}

#[derive(Default)]
struct RecordingCursor {
    calls: Vec<(&'static str, bool)>,
}

impl CursorController for RecordingCursor {
    fn visible_request(&self) -> Option<bool> {
        self.calls.iter().rev().find(|(kind, _)| *kind == "visible").map(|(_, value)| *value)
    }

    fn clip_request(&self) -> Option<bool> {
        self.calls.iter().rev().find(|(kind, _)| *kind == "clipped").map(|(_, value)| *value)
    }

    fn set_visible(&mut self, visible: bool) {
        self.calls.push(("visible", visible));
    }

    fn set_clipped(&mut self, clipped: bool) {
        self.calls.push(("clipped", clipped));
    }
}

#[test]
fn relative_mode_enter_hides_and_clips_cursor() {
    let mut cursor = RecordingCursor::default();
    assert!(ipkvm::cursor::sync_cursor(&mut cursor, true, ipkvm::config::MouseMode::Relative));
    assert_eq!(cursor.calls, vec![("visible", false), ("clipped", true)]);
    assert_eq!((cursor.visible_request(), cursor.clip_request()), (Some(false), Some(true)));
}

#[test]
fn absolute_mode_enter_keeps_cursor_visible() {
    let mut cursor = RecordingCursor::default();
    assert!(!ipkvm::cursor::sync_cursor(&mut cursor, true, ipkvm::config::MouseMode::Absolute));
    assert_eq!(cursor.calls, vec![("visible", true), ("clipped", false)]);
    let mut noop = ipkvm::cursor::NoopCursorController::default();
    assert!(!ipkvm::cursor::sync_cursor(&mut noop, false, ipkvm::config::MouseMode::Relative));
}

#[test]
fn frame_intervals_between_arrivals() {
    let mut stats = FrameStats::new();
    assert!(stats.intervals().is_empty());
    stats.record_at(1_000);
    stats.record_at(17_000);
    stats.record_at(50_000);
    stats.record_at(40_000);
    assert_eq!(stats.intervals(), vec![16_000, 33_000, 0]);
}
