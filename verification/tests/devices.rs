use std::cmp::Ordering;

use ipkvm::device::{
    compare_serial_paths, serial_devices_from_ports, sort_by_path, DeviceInventoryProvider, DeviceProviderError,
    SerialDevice, SerialPortInfo, SerialPortType, StaticDeviceInventoryProvider, UsbPortInfo,
    VideoDevice,
};
use ipkvm::natural::{natural_path_order, PathOrder};
use ipkvm::probe::{
    control_answer_options, control_options, detect_baud_rate, list_control_options,
    list_video_options, video_answer_options, ControlProber, ProbeError, BAUD_CANDIDATES,
    first_ready_baud, probe_ch9329, ProbeReply,
};
use ipkvm::state::{ControlInfo, ControlProbeStatus, DeviceOption};

fn serial(path: &str, name: &str) -> SerialDevice {
    SerialDevice { path: path.into(), display_name: name.into() }
}

fn usb_port(product: &str) -> SerialPortType {
    SerialPortType::UsbPort(UsbPortInfo {
        vid: 0x1a86,
        pid: 0x7523,
        serial_number: None,
        manufacturer: Some("QinHeng".into()),
        product: Some(product.into()),
    })
}

fn port(name: &str, port_type: SerialPortType) -> SerialPortInfo {
    SerialPortInfo { port_name: name.into(), port_type }
}

#[test]
fn static_provider_returns_independent_video_and_serial_lists() {
    let provider = StaticDeviceInventoryProvider::new(
        vec![VideoDevice { id: "cam0".into(), display_name: "Camera 0".into() }],
        vec![serial("COM9", "CH9329")],
    );
    assert_eq!(
        provider.list_video_devices().unwrap(),
        vec![VideoDevice { id: "cam0".into(), display_name: "Camera 0".into() }]
    );
    assert_eq!(provider.list_serial_devices().unwrap(), vec![serial("COM9", "CH9329")]);
}

#[test]
fn static_provider_can_report_each_enumeration_error() {
    let provider =
        StaticDeviceInventoryProvider::with_errors(Some("camera unavailable"), Some("serial unavailable"));
    assert_eq!(
        provider.list_video_devices().unwrap_err(),
        DeviceProviderError::Video("camera unavailable".into())
    );
    assert_eq!(
        provider.list_serial_devices().unwrap_err(),
        DeviceProviderError::Serial("serial unavailable".into())
    );
}

#[test]
fn serial_paths_sort_naturally_with_numeric_suffixes() {
    let mut usb = vec!["/dev/ttyUSB10", "/dev/ttyUSB2", "/dev/ttyUSB0"];
    usb.sort_by(|left, right| compare_serial_paths(left, right));
    assert_eq!(usb, ["/dev/ttyUSB0", "/dev/ttyUSB2", "/dev/ttyUSB10"]);

    let mut com = vec!["COM10", "COM9", "COM2"];
    com.sort_by(|left, right| compare_serial_paths(left, right));
    assert_eq!(com, ["COM2", "COM9", "COM10"]);

    assert_eq!(compare_serial_paths("/dev/ttyUSB0", "/dev/ttyUSB0"), Ordering::Equal);
    assert_eq!(compare_serial_paths("/dev/ttyUSB", "/dev/ttyUSB0"), Ordering::Less);
    assert_eq!(compare_serial_paths("/dev/ttyACM0", "/dev/ttyUSB0"), Ordering::Less);
}

#[test]
fn leading_zeros_do_not_change_numeric_order() {
    assert_eq!(natural_path_order("COM007", "COM7"), PathOrder::Equal);
    assert_eq!(natural_path_order("COM010", "COM9"), PathOrder::Greater);
    assert_eq!(natural_path_order("a2b", "a10a"), PathOrder::Less);
}

#[test]
fn usb_adapters_are_kept_sorted_and_legacy_uarts_dropped() {
    let ports = vec![
        port("/dev/ttyS2", SerialPortType::Unknown),
        port("/dev/ttyUSB10", usb_port("USB Serial 10")),
        port("/dev/rfcomm0", SerialPortType::BluetoothPort),
        port("/dev/ttyUSB2", usb_port("USB Serial 2")),
        port("/dev/ttyUSB0", usb_port("USB Serial")),
    ];
    let devices = serial_devices_from_ports(ports, true);
    let paths: Vec<&str> = devices.iter().map(|d| d.path.as_str()).collect();
    assert_eq!(paths, ["/dev/ttyUSB0", "/dev/ttyUSB2", "/dev/ttyUSB10"]);
    assert_eq!(devices[0].display_name, "USB Serial");
}

#[test]
fn com_ports_are_all_kept_and_sorted_naturally() {
    let ports = vec![
        port("COM10", SerialPortType::Unknown),
        port("COM9", SerialPortType::Unknown),
        port("COM2", SerialPortType::Unknown),
    ];
    let devices = serial_devices_from_ports(ports, false);
    let paths: Vec<&str> = devices.iter().map(|d| d.path.as_str()).collect();
    assert_eq!(paths, ["COM2", "COM9", "COM10"]);
}

#[test]
fn usb_display_name_falls_back_to_manufacturer_then_port() {
    let ports = vec![
        port(
            "/dev/ttyUSB1",
            SerialPortType::UsbPort(UsbPortInfo {
                vid: 1,
                pid: 2,
                serial_number: None,
                manufacturer: Some("Maker".into()),
                product: Some(String::new()),
            }),
        ),
        port(
            "/dev/ttyUSB0",
            SerialPortType::UsbPort(UsbPortInfo {
                vid: 1,
                pid: 2,
                serial_number: None,
                manufacturer: None,
                product: None,
            }),
        ),
    ];
    let devices = serial_devices_from_ports(ports, true);
    assert_eq!(devices[0], serial("/dev/ttyUSB0", "/dev/ttyUSB0"));
    assert_eq!(devices[1], serial("/dev/ttyUSB1", "Maker"));
}

#[test]
fn provider_errors_have_readable_messages() {
    assert_eq!(
        DeviceProviderError::Video("no camera".into()).message(),
        "video device enumeration failed: no camera"
    );
    assert_eq!(
        DeviceProviderError::Serial("busy".into()).message(),
        "serial device enumeration failed: busy"
    );
}

#[test]
fn equal_control_names_are_told_apart_by_path() {
    let options = control_options(vec![
        serial("COM3", "CH9329"),
        serial("COM4", "CH9329"),
        serial("COM5", ""),
        serial("COM6", "CH9329"),
    ]);
    assert_eq!(
        options,
        vec![
            DeviceOption { id: "COM3".into(), label: "CH9329".into() },
            DeviceOption { id: "COM4".into(), label: "CH9329 (COM4)".into() },
            DeviceOption { id: "COM5".into(), label: "COM5".into() },
            DeviceOption { id: "COM6".into(), label: "CH9329 (COM6)".into() },
        ]
    );
}

#[test]
fn provider_answers_become_options() {
    let provider = StaticDeviceInventoryProvider::new(
        vec![VideoDevice { id: "cam0".into(), display_name: "Camera 0".into() }],
        vec![serial("COM9", "CH9329")],
    );
    assert_eq!(
        list_video_options(&provider),
        Ok(vec![DeviceOption { id: "cam0".into(), label: "Camera 0".into() }])
    );
    assert_eq!(
        list_control_options(&provider),
        Ok(vec![DeviceOption { id: "COM9".into(), label: "CH9329".into() }])
    );
    let failing = StaticDeviceInventoryProvider::with_errors(Some("x"), Some("y"));
    assert_eq!(
        list_video_options(&failing),
        Err(ProbeError::VideoList("video device enumeration failed: x".into()))
    );
    assert_eq!(
        control_answer_options(Err(DeviceProviderError::Serial("y".into()))),
        Err(ProbeError::ControlList("serial device enumeration failed: y".into()))
    );
    assert_eq!(video_answer_options(Ok(vec![])), Ok(vec![]));
}

struct AnswersAt {
    baud: u32,
    tried: Vec<u32>,
}

impl ControlProber for AnswersAt {
    fn probe_control(&mut self, _path: &str, baud_rate: u32) -> ControlProbeStatus {
        self.tried.push(baud_rate);
        if baud_rate == self.baud {
            ControlProbeStatus::Ready(ControlInfo { version: 0x31, usb_enumerated: true, baud: baud_rate })
        } else {
            ControlProbeStatus::NoResponse
        }
    }
}

#[test]
fn baud_detection_stops_at_the_first_answer() {
    let mut prober = AnswersAt { baud: 38400, tried: Vec::new() };
    assert_eq!(detect_baud_rate(&mut prober, "COM9"), Some(38400));
    assert_eq!(prober.tried, vec![115200, 57600, 38400]);
    let mut silent = AnswersAt { baud: 1, tried: Vec::new() };
    assert_eq!(detect_baud_rate(&mut silent, "COM9"), None);
    assert_eq!(silent.tried, BAUD_CANDIDATES.to_vec());
}

#[test]
fn probe_takes_the_first_decisive_reply() {
    let info = vec![
        ProbeReply::Pending,
        ProbeReply::Info { version: 0x30, usb_enumerated: false },
        ProbeReply::PortFailed("late".into()),
    ];
    assert_eq!(
        probe_ch9329(&info, 9600),
        ControlProbeStatus::Ready(ControlInfo { version: 0x30, usb_enumerated: false, baud: 9600 })
    );
    assert_eq!(
        probe_ch9329(&vec![ProbeReply::Acknowledgement], 9600),
        ControlProbeStatus::NotCh9329("unexpected acknowledgement".into())
    );
    assert_eq!(
        probe_ch9329(&vec![ProbeReply::Pending, ProbeReply::Invalid("bad checksum".into())], 9600),
        ControlProbeStatus::NotCh9329("bad checksum".into())
    );
    assert_eq!(
        probe_ch9329(&vec![ProbeReply::PortFailed("busy".into())], 9600),
        ControlProbeStatus::OpenFailed("busy".into())
    );
    assert_eq!(probe_ch9329(&vec![], 9600), ControlProbeStatus::NoResponse);
    assert_eq!(
        probe_ch9329(&vec![ProbeReply::Pending, ProbeReply::Pending], 9600),
        ControlProbeStatus::NoResponse
    );
}

#[test]
fn first_ready_answer_picks_its_candidate() {
    let ready = ControlProbeStatus::Ready(ControlInfo { version: 1, usb_enumerated: true, baud: 0 });
    assert_eq!(
        first_ready_baud(&vec![ControlProbeStatus::NoResponse, ready.clone(), ready.clone()]),
        Some(57600)
    );
    assert_eq!(first_ready_baud(&vec![ready]), Some(115200));
    assert_eq!(first_ready_baud(&vec![ControlProbeStatus::NoResponse; 5]), None);
    assert_eq!(first_ready_baud(&vec![]), None);
    let mut late = vec![ControlProbeStatus::NoResponse; 5];
    late.push(ControlProbeStatus::Ready(ControlInfo { version: 1, usb_enumerated: true, baud: 0 }));
    assert_eq!(first_ready_baud(&late), None);
}

#[test]
fn sorting_keeps_equal_paths_in_listing_order() {
    let sorted = sort_by_path(vec![
        serial("COM10", "ten"),
        serial("COM1", "one"),
        serial("COM2", "two"),
        serial("COM01", "zero-one"),
    ]);
    let names: Vec<&str> = sorted.iter().map(|d| d.display_name.as_str()).collect();
    assert_eq!(names, vec!["one", "zero-one", "two", "ten"]);
    let swapped = sort_by_path(vec![serial("COM01", "zero-one"), serial("COM1", "one")]);
    let names: Vec<&str> = swapped.iter().map(|d| d.display_name.as_str()).collect();
    assert_eq!(names, vec!["zero-one", "one"]);
}

#[test]
fn long_digit_runs_compare_by_significant_length() {
    assert_eq!(
        compare_serial_paths("COM99999999999999999999", "COM100000000000000000000"),
        Ordering::Less
    );
    assert_eq!(
        compare_serial_paths("COM100000000000000000000", "COM99999999999999999999"),
        Ordering::Greater
    );
    assert_eq!(compare_serial_paths("COM0007", "COM7"), Ordering::Equal);
}
