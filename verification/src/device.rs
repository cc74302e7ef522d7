//! Device inventory: what capture devices and serial ports exist, without
//! opening any of them.

use vstd::prelude::*;
use vstd::multiset::Multiset;
use std::cmp::Ordering;
use crate::natural::{
    digit_run, is_digit, lemma_digit_run_bound, lemma_natural_order_flip,
    lemma_natural_order_refl, lemma_natural_order_trans, natural_order,
    natural_path_order, PathOrder,
};

verus! {

/// A video capture device: stable id and display name.
#[derive(Debug, PartialEq, Eq)]
pub struct VideoDevice {
    pub id: String,
    pub display_name: String,
}

impl Clone for VideoDevice {
    fn clone(&self) -> (r: Self)
        ensures
            r == *self,
    {
        VideoDevice { id: self.id.clone(), display_name: self.display_name.clone() }
    }
}

/// A serial port that may carry a CH9329: its path and display name.
#[derive(Debug, PartialEq, Eq)]
pub struct SerialDevice {
    pub path: String,
    pub display_name: String,
}

impl Clone for SerialDevice {
    fn clone(&self) -> (r: Self)
        ensures
            r == *self,
    {
        SerialDevice { path: self.path.clone(), display_name: self.display_name.clone() }
    }
}

/// Enumeration failure of one of the two device kinds, with its detail text.
#[derive(Debug, PartialEq, Eq)]
pub enum DeviceProviderError {
    Video(String),
    Serial(String),
}

impl Clone for DeviceProviderError {
    fn clone(&self) -> (r: Self)
        ensures
            r == *self,
    {
        match self {
            DeviceProviderError::Video(d) => DeviceProviderError::Video(d.clone()),
            DeviceProviderError::Serial(d) => DeviceProviderError::Serial(d.clone()),
        }
    }
}

/// Text of an enumeration failure.
pub open spec fn provider_error_text(e: DeviceProviderError) -> Seq<char> {
    match e {
        DeviceProviderError::Video(d) => "video device enumeration failed: "@ + d@,
        DeviceProviderError::Serial(d) => "serial device enumeration failed: "@ + d@,
    }
}

impl DeviceProviderError {
    /// Text of the failure (see [`provider_error_text`]).
    pub fn message(&self) -> (r: String)
        ensures
            r@ == provider_error_text(*self),
    {
        match self {
            DeviceProviderError::Video(d) => crate::text::concat_str(
                "video device enumeration failed: ",
                d.as_str(),
            ),
            DeviceProviderError::Serial(d) => crate::text::concat_str(
                "serial device enumeration failed: ",
                d.as_str(),
            ),
        }
    }
}

/// Lists devices only; never opens a camera or a serial port.
pub trait DeviceInventoryProvider {
    fn list_video_devices(&self) -> Result<Vec<VideoDevice>, DeviceProviderError>;

    fn list_serial_devices(&self) -> Result<Vec<SerialDevice>, DeviceProviderError>;
}

/// A provider with fixed answers, for tests and fixtures.
#[derive(Debug)]
pub struct StaticDeviceInventoryProvider {
    video: Result<Vec<VideoDevice>, DeviceProviderError>,
    serial: Result<Vec<SerialDevice>, DeviceProviderError>,
}

/// The answer a static provider gives, as devices or as the error.
pub open spec fn same_answer<T>(
    a: Result<Vec<T>, DeviceProviderError>,
    b: Result<Vec<T>, DeviceProviderError>,
) -> bool {
    match (a, b) {
        (Ok(x), Ok(y)) => x@ == y@,
        (Err(x), Err(y)) => x == y,
        _ => false,
    }
}

fn clone_videos(v: &Vec<VideoDevice>) -> (r: Vec<VideoDevice>)
    ensures
        r@ == v@,
{
    let mut r: Vec<VideoDevice> = Vec::new();
    let mut i: usize = 0;
    while i < v.len()
        invariant
            i <= v@.len(),
            r@ == v@.subrange(0, i as int),
        decreases v@.len() - i,
    {
        r.push(v[i].clone());
        i = i + 1;
    }
    r
}

fn clone_serials(v: &Vec<SerialDevice>) -> (r: Vec<SerialDevice>)
    ensures
        r@ == v@,
{
    let mut r: Vec<SerialDevice> = Vec::new();
    let mut i: usize = 0;
    while i < v.len()
        invariant
            i <= v@.len(),
            r@ == v@.subrange(0, i as int),
        decreases v@.len() - i,
    {
        r.push(v[i].clone());
        i = i + 1;
    }
    r
}

impl StaticDeviceInventoryProvider {
    /// The video answer this provider gives.
    pub closed spec fn video_answer(&self) -> Result<Vec<VideoDevice>, DeviceProviderError> {
        self.video
    }

    /// The serial answer this provider gives.
    pub closed spec fn serial_answer(&self) -> Result<Vec<SerialDevice>, DeviceProviderError> {
        self.serial
    }

    /// A provider that lists these devices.
    pub fn new(video: Vec<VideoDevice>, serial: Vec<SerialDevice>) -> (r: Self)
        ensures
            r.video_answer() matches Ok(v) && v@ == video@,
            r.serial_answer() matches Ok(s) && s@ == serial@,
    {
        StaticDeviceInventoryProvider { video: Ok(video), serial: Ok(serial) }
    }

    /// A provider whose enumerations fail with the given details; a side
    /// without a detail lists no devices.
    pub fn with_errors(video: Option<&str>, serial: Option<&str>) -> (r: Self)
        ensures
            match video {
                Some(d) => r.video_answer() matches Err(DeviceProviderError::Video(e)) && e@ == d@,
                None => r.video_answer() matches Ok(v) && v@.len() == 0,
            },
            match serial {
                Some(d) => r.serial_answer() matches Err(DeviceProviderError::Serial(e)) && e@
                    == d@,
                None => r.serial_answer() matches Ok(s) && s@.len() == 0,
            },
    {
        let video = match video {
            Some(detail) => Err(DeviceProviderError::Video(detail.to_owned())),
            None => Ok(Vec::new()),
        };
        let serial = match serial {
            Some(detail) => Err(DeviceProviderError::Serial(detail.to_owned())),
            None => Ok(Vec::new()),
        };
        StaticDeviceInventoryProvider { video, serial }
    }
}

impl DeviceInventoryProvider for StaticDeviceInventoryProvider {
    fn list_video_devices(&self) -> (r: Result<Vec<VideoDevice>, DeviceProviderError>)
        ensures
            same_answer(r, self.video_answer()),
    {
        match &self.video {
            Ok(v) => Ok(clone_videos(v)),
            Err(e) => Err(e.clone()),
        }
    }

    fn list_serial_devices(&self) -> (r: Result<Vec<SerialDevice>, DeviceProviderError>)
        ensures
            same_answer(r, self.serial_answer()),
    {
        match &self.serial {
            Ok(v) => Ok(clone_serials(v)),
            Err(e) => Err(e.clone()),
        }
    }
}

/// USB details the operating system reports for a serial port.
#[derive(Debug, PartialEq, Eq)]
pub struct UsbPortInfo {
    pub vid: u16,
    pub pid: u16,
    pub serial_number: Option<String>,
    pub manufacturer: Option<String>,
    pub product: Option<String>,
}

impl Clone for UsbPortInfo {
    fn clone(&self) -> (r: Self)
        ensures
            r == *self,
    {
        UsbPortInfo {
            vid: self.vid,
            pid: self.pid,
            serial_number: self.serial_number.clone(),
            manufacturer: self.manufacturer.clone(),
            product: self.product.clone(),
        }
    }
}

/// Kind of a serial port as the operating system reports it.
#[derive(Debug, PartialEq, Eq)]
pub enum SerialPortType {
    UsbPort(UsbPortInfo),
    PciPort,
    BluetoothPort,
    Unknown,
}

impl Clone for SerialPortType {
    fn clone(&self) -> (r: Self)
        ensures
            r == *self,
    {
        match self {
            SerialPortType::UsbPort(info) => SerialPortType::UsbPort(info.clone()),
            SerialPortType::PciPort => SerialPortType::PciPort,
            SerialPortType::BluetoothPort => SerialPortType::BluetoothPort,
            SerialPortType::Unknown => SerialPortType::Unknown,
        }
    }
}

/// One enumerated serial port.
#[derive(Debug, PartialEq, Eq)]
pub struct SerialPortInfo {
    pub port_name: String,
    pub port_type: SerialPortType,
}

impl Clone for SerialPortInfo {
    fn clone(&self) -> (r: Self)
        ensures
            r == *self,
    {
        SerialPortInfo { port_name: self.port_name.clone(), port_type: self.port_type.clone() }
    }
}

/// A port is offered when all kinds are accepted, or when it is a USB adapter
/// (on-board UARTs are usually unwired and not accessible).
pub open spec fn is_candidate(info: SerialPortInfo, usb_only: bool) -> bool {
    !usb_only || info.port_type is UsbPort
}

/// An optional name that is present and not empty.
pub open spec fn usable_name(name: Option<String>) -> bool {
    name matches Some(n) && n@.len() > 0
}

/// Display name of a port: for USB adapters the product name, else the
/// manufacturer, else the port name; for other ports the port name.
pub open spec fn display_name_of(info: SerialPortInfo) -> Seq<char> {
    match info.port_type {
        SerialPortType::UsbPort(usb) => if usable_name(usb.product) {
            usb.product.unwrap()@
        } else if usable_name(usb.manufacturer) {
            usb.manufacturer.unwrap()@
        } else {
            info.port_name@
        },
        _ => info.port_name@,
    }
}

/// Whether this port kind is offered.
pub fn serial_port_type_is_candidate(info: &SerialPortInfo, usb_only: bool) -> (r: bool)
    ensures
        r == is_candidate(*info, usb_only),
{
    !usb_only || matches!(info.port_type, SerialPortType::UsbPort(_))
}

fn usable(name: &Option<String>) -> (r: bool)
    ensures
        r == usable_name(*name),
{
    match name {
        Some(n) => n.as_str().unicode_len() > 0,
        None => false,
    }
}

/// The device entry for an enumerated port.
pub fn map_serial_device(port: SerialPortInfo) -> (r: SerialDevice)
    ensures
        r.path@ == port.port_name@,
        r.display_name@ == display_name_of(port),
{
    let display_name = match &port.port_type {
        SerialPortType::UsbPort(info) => {
            if usable(&info.product) {
                info.product.clone().unwrap()
            } else if usable(&info.manufacturer) {
                info.manufacturer.clone().unwrap()
            } else {
                port.port_name.clone()
            }
        },
        _ => port.port_name.clone(),
    };
    SerialDevice { path: port.port_name, display_name }
}

/// What a device entry shows: path and display name.
pub open spec fn device_view(d: SerialDevice) -> (Seq<char>, Seq<char>) {
    (d.path@, d.display_name@)
}

/// Entries of the offered ports, in enumeration order.
pub open spec fn offered_devices(ports: Seq<SerialPortInfo>, usb_only: bool) -> Seq<
    (Seq<char>, Seq<char>),
>
    decreases ports.len(),
{
    if ports.len() == 0 {
        Seq::empty()
    } else {
        let rest = offered_devices(ports.drop_last(), usb_only);
        let last = ports.last();
        if is_candidate(last, usb_only) {
            rest.push((last.port_name@, display_name_of(last)))
        } else {
            rest
        }
    }
}

/// Entry `i` does not sort after entry `i + 1`.
pub open spec fn adjacent_in_order(s: Seq<SerialDevice>, i: int) -> bool {
    natural_order(s[i].path@, s[i + 1].path@) != PathOrder::Greater
}

/// Neighbouring entries are in natural path order.
pub open spec fn sorted_by_path(s: Seq<SerialDevice>) -> bool {
    forall|i: int| 0 <= i < s.len() - 1 ==> #[trigger] adjacent_in_order(s, i)
}

/// Entry `i` does not sort after entry `j`.
pub open spec fn in_order(s: Seq<SerialDevice>, i: int, j: int) -> bool {
    natural_order(s[i].path@, s[j].path@) != PathOrder::Greater
}

/// A list sorted neighbour by neighbour is sorted throughout: no entry sorts
/// after any later one.
pub proof fn lemma_sorted_throughout(s: Seq<SerialDevice>, i: int, j: int)
    requires
        sorted_by_path(s),
        0 <= i <= j < s.len(),
    ensures
        in_order(s, i, j),
    decreases j - i,
{
    if i == j {
        lemma_natural_order_refl(s[i].path@);
    } else {
        lemma_sorted_throughout(s, i, j - 1);
        assert(adjacent_in_order(s, j - 1));
        lemma_natural_order_trans(s[i].path@, s[j - 1].path@, s[j].path@);
    }
}

/// Entries of a list as what they show.
pub open spec fn views(s: Seq<SerialDevice>) -> Seq<(Seq<char>, Seq<char>)> {
    s.map_values(|d: SerialDevice| device_view(d))
}

proof fn lemma_insert_views(s: Seq<SerialDevice>, p: int, x: SerialDevice)
    requires
        0 <= p <= s.len(),
    ensures
        views(s.insert(p, x)).to_multiset() =~= views(s).to_multiset().insert(device_view(x)),
{
    broadcast use vstd::seq_lib::group_to_multiset_ensures;

    let t = s.insert(p, x);
    s.insert_ensures(p, x);
    assert(views(t).remove(p) =~= views(s));
    assert(views(t)[p] == device_view(x));
    assert(views(t).remove(p).to_multiset() =~= views(t).to_multiset().remove(device_view(x)));
    assert(views(t).contains(device_view(x)));
    assert(views(t).to_multiset().count(device_view(x)) > 0);
}

/// A port of type `UsbPort` among `ports` is named `path`.
pub open spec fn from_usb_port(ports: Seq<SerialPortInfo>, path: Seq<char>) -> bool {
    exists|j: int|
        0 <= j < ports.len() && (#[trigger] ports[j]).port_type is UsbPort && ports[j].port_name@
            == path
}

/// An entry of `devices` has the path `path`.
pub open spec fn has_path(devices: Seq<SerialDevice>, path: Seq<char>) -> bool {
    exists|i: int| 0 <= i < devices.len() && (#[trigger] devices[i]).path@ == path
}

/// With only USB adapters wanted, every listed entry comes from a port of
/// type `UsbPort`: its path is that port's name.
pub proof fn lemma_usb_only_lists_usb_ports(ports: Seq<SerialPortInfo>, i: int)
    requires
        0 <= i < offered_devices(ports, true).len(),
    ensures
        exists|j: int|
            0 <= j < ports.len() && (#[trigger] ports[j]).port_type is UsbPort && ports[j].port_name@
                == offered_devices(ports, true)[i].0,
    decreases ports.len(),
{
    let rest = offered_devices(ports.drop_last(), true);
    if i < rest.len() {
        lemma_usb_only_lists_usb_ports(ports.drop_last(), i);
        let j = choose|j: int|
            0 <= j < ports.drop_last().len() && (#[trigger] ports.drop_last()[j]).port_type is UsbPort
                && ports.drop_last()[j].port_name@ == rest[i].0;
        assert(ports[j] == ports.drop_last()[j]);
    } else {
        let j = ports.len() - 1;
        assert(ports[j] == ports.last());
    }
}

/// Every port of type `UsbPort` is listed, with its name as path, and without
/// the restriction to USB adapters every port is.
pub proof fn lemma_wanted_ports_listed(ports: Seq<SerialPortInfo>, usb_only: bool, j: int)
    requires
        0 <= j < ports.len(),
        !usb_only || ports[j].port_type is UsbPort,
    ensures
        offered_devices(ports, usb_only).contains((ports[j].port_name@, display_name_of(ports[j]))),
    decreases ports.len(),
{
    let rest = offered_devices(ports.drop_last(), usb_only);
    let entry = (ports[j].port_name@, display_name_of(ports[j]));
    if j < ports.len() - 1 {
        assert(ports.drop_last()[j] == ports[j]);
        lemma_wanted_ports_listed(ports.drop_last(), usb_only, j);
        let k = choose|k: int| 0 <= k < rest.len() && rest[k] == entry;
        if is_candidate(ports.last(), usb_only) {
            assert(offered_devices(ports, usb_only)[k] == entry);
        } else {
            assert(offered_devices(ports, usb_only)[k] == entry);
        }
    } else {
        assert(ports.last() == ports[j]);
        let all = offered_devices(ports, usb_only);
        assert(all[all.len() - 1] == entry);
    }
}

/// The device list of an enumeration: offered ports only, mapped to device
/// entries and sorted by natural path order.
pub fn serial_devices_from_ports(ports: Vec<SerialPortInfo>, usb_only: bool) -> (r: Vec<
    SerialDevice,
>)
    ensures
        views(r@).to_multiset() == offered_devices(ports@, usb_only).to_multiset(),
        sorted_by_path(r@),
        forall|key: Seq<char>|
            #[trigger] views(r@).filter(ties_with(key)) == offered_devices(ports@, usb_only).filter(
                ties_with(key),
            ),
        usb_only ==> forall|i: int| 0 <= i < r@.len() ==> from_usb_port(ports@, #[trigger] r@[i].path@),
        forall|j: int|
            0 <= j < ports@.len() && (!usb_only || ports@[j].port_type is UsbPort) ==> has_path(
                r@,
                #[trigger] ports@[j].port_name@,
            ),
{
    let mut mapped: Vec<SerialDevice> = Vec::new();
    let mut i: usize = 0;
    while i < ports.len()
        invariant
            i <= ports@.len(),
            views(mapped@) == offered_devices(ports@.subrange(0, i as int), usb_only),
        decreases ports@.len() - i,
    {
        let port = ports[i].clone();
        proof {
            assert(ports@.subrange(0, i + 1).drop_last() =~= ports@.subrange(0, i as int));
        }
        if serial_port_type_is_candidate(&port, usb_only) {
            let d = map_serial_device(port);
            let ghost before = mapped@;
            mapped.push(d);
            proof {
                assert(views(mapped@) =~= views(before).push(device_view(d)));
            }
        }
        i = i + 1;
    }
    proof {
        assert(ports@.subrange(0, ports@.len() as int) =~= ports@);
    }
    let r = sort_by_path(mapped);
    proof {
        broadcast use vstd::seq_lib::group_to_multiset_ensures;

        let offered = offered_devices(ports@, usb_only);
        if usb_only {
            assert forall|i: int| 0 <= i < r@.len() implies from_usb_port(
                ports@,
                #[trigger] r@[i].path@,
            ) by {
                let v = views(r@)[i];
                assert(views(r@).contains(v));
                assert(views(r@).to_multiset().count(v) > 0);
                assert(offered.to_multiset().count(v) > 0);
                assert(offered.contains(v));
                let k = choose|k: int| 0 <= k < offered.len() && offered[k] == v;
                lemma_usb_only_lists_usb_ports(ports@, k);
            }
        }
        assert forall|j: int|
            0 <= j < ports@.len() && (!usb_only || ports@[j].port_type is UsbPort) implies has_path(
                r@,
                #[trigger] ports@[j].port_name@,
            ) by {
            lemma_wanted_ports_listed(ports@, usb_only, j);
            let entry = (ports@[j].port_name@, display_name_of(ports@[j]));
            assert(offered.to_multiset().count(entry) > 0);
            assert(views(r@).to_multiset().count(entry) > 0);
            assert(views(r@).contains(entry));
            let i = choose|i: int| 0 <= i < views(r@).len() && views(r@)[i] == entry;
            assert(r@[i].path@ == entry.0);
        }
    }
    r
}

#[verifier::spinoff_prover]
proof fn lemma_insert_keeps_sorted(before: Seq<SerialDevice>, p: int, x: SerialDevice)
    requires
        sorted_by_path(before),
        0 <= p <= before.len(),
        forall|q: int| 0 <= q < p ==> natural_order(#[trigger] before[q].path@, x.path@)
            != PathOrder::Greater,
        p < before.len() ==> natural_order(before[p].path@, x.path@) == PathOrder::Greater,
    ensures
        sorted_by_path(before.insert(p, x)),
{
    let out = before.insert(p, x);
    before.insert_ensures(p, x);
    if p < before.len() {
        lemma_natural_order_flip(before[p].path@, x.path@);
    }
    assert forall|i: int| 0 <= i < out.len() - 1 implies #[trigger] adjacent_in_order(out, i) by {
        if i + 1 < p {
            assert(out[i] == before[i] && out[i + 1] == before[i + 1]);
            assert(adjacent_in_order(before, i));
        } else if i + 1 == p {
            assert(out[i] == before[i] && out[i + 1] == x);
        } else if i == p {
            assert(out[i] == x && out[i + 1] == before[i]);
        } else {
            assert(out[i] == before[i - 1] && out[i + 1] == before[i]);
            assert(adjacent_in_order(before, i - 1));
        }
    }
}

/// Entries whose path sorts equal to `key`: the entries a sort may not
/// reorder among themselves.
pub open spec fn ties_with(key: Seq<char>) -> spec_fn((Seq<char>, Seq<char>)) -> bool {
    |v: (Seq<char>, Seq<char>)| natural_order(v.0, key) == PathOrder::Equal
}

#[verifier::spinoff_prover]
proof fn lemma_insert_keeps_ties(before: Seq<SerialDevice>, p: int, x: SerialDevice, key: Seq<char>)
    requires
        sorted_by_path(before),
        0 <= p <= before.len(),
        forall|q: int| 0 <= q < p ==> natural_order(#[trigger] before[q].path@, x.path@)
            != PathOrder::Greater,
        p < before.len() ==> natural_order(before[p].path@, x.path@) == PathOrder::Greater,
    ensures
        views(before.insert(p, x)).filter(ties_with(key)) == if ties_with(key)(device_view(x)) {
            views(before).filter(ties_with(key)).push(device_view(x))
        } else {
            views(before).filter(ties_with(key))
        },
{
    broadcast use Seq::filter_distributes_over_add, Seq::lemma_filter_push;

    let pred = ties_with(key);
    let vs = views(before);
    let head = vs.subrange(0, p);
    let tail = vs.subrange(p, vs.len() as int);
    assert(views(before.insert(p, x)) =~= head.push(device_view(x)) + tail);
    assert(vs =~= head + tail);
    if pred(device_view(x)) {
        assert forall|i: int| 0 <= i < tail.len() implies !#[trigger] pred(tail[i]) by {
            let q = p + i;
            assert(tail[i] == device_view(before[q]));
            lemma_sorted_throughout(before, p, q);
            lemma_natural_order_flip(before[p].path@, x.path@);
            lemma_natural_order_trans(x.path@, before[p].path@, before[q].path@);
            lemma_natural_order_flip(x.path@, before[q].path@);
            lemma_natural_order_flip(x.path@, key);
            lemma_natural_order_trans(before[q].path@, key, x.path@);
        }
        assert(tail.all(|v: (Seq<char>, Seq<char>)| !pred(v)));
        tail.lemma_all_neg_filter_empty(pred);
        assert(tail.filter(pred) =~= Seq::empty());
        assert(head.filter(pred) + tail.filter(pred) =~= head.filter(pred));
        assert(head.filter(pred).push(device_view(x)) + tail.filter(pred) =~= head.filter(
            pred,
        ).push(device_view(x)));
    }
}

/// Inserts an entry after every leading entry that does not sort after it.
fn insert_in_order(out: &mut Vec<SerialDevice>, x: SerialDevice)
    requires
        sorted_by_path(old(out)@),
    ensures
        sorted_by_path(final(out)@),
        views(final(out)@).to_multiset() == views(old(out)@).to_multiset().insert(device_view(x)),
        forall|key: Seq<char>|
            #[trigger] views(final(out)@).filter(ties_with(key)) == if ties_with(key)(
                device_view(x),
            ) {
                views(old(out)@).filter(ties_with(key)).push(device_view(x))
            } else {
                views(old(out)@).filter(ties_with(key))
            },
{
    let mut p: usize = 0;
    while p < out.len() && !matches!(
        natural_path_order(out[p].path.as_str(), x.path.as_str()),
        PathOrder::Greater
    )
        invariant
            p <= out@.len(),
            out@ == old(out)@,
            forall|q: int|
                0 <= q < p ==> natural_order(#[trigger] out@[q].path@, x.path@)
                    != PathOrder::Greater,
        decreases out@.len() - p,
    {
        p = p + 1;
    }
    proof {
        lemma_insert_views(out@, p as int, x);
        lemma_insert_keeps_sorted(out@, p as int, x);
        assert forall|key: Seq<char>|
            #[trigger] views(out@.insert(p as int, x)).filter(ties_with(key)) == if ties_with(key)(
                device_view(x),
            ) {
                views(out@).filter(ties_with(key)).push(device_view(x))
            } else {
                views(out@).filter(ties_with(key))
            } by {
            lemma_insert_keeps_ties(out@, p as int, x, key);
        }
    }
    out.insert(p, x);
}

/// Stable insertion of each entry after every entry that does not sort after
/// it: the result holds the same entries, in natural path order, and entries
/// whose paths sort equal keep their order.
pub fn sort_by_path(mapped: Vec<SerialDevice>) -> (r: Vec<SerialDevice>)
    ensures
        views(r@).to_multiset() == views(mapped@).to_multiset(),
        sorted_by_path(r@),
        forall|key: Seq<char>|
            #[trigger] views(r@).filter(ties_with(key)) == views(mapped@).filter(ties_with(key)),
{
    let mut out: Vec<SerialDevice> = Vec::new();
    let mut k: usize = 0;
    proof {
        assert(views(mapped@.subrange(0, 0)) =~= Seq::empty());
        assert(views(out@) =~= Seq::empty());
    }
    while k < mapped.len()
        invariant
            k <= mapped@.len(),
            views(out@).to_multiset() == views(mapped@.subrange(0, k as int)).to_multiset(),
            sorted_by_path(out@),
            forall|key: Seq<char>|
                #[trigger] views(out@).filter(ties_with(key)) == views(
                    mapped@.subrange(0, k as int),
                ).filter(ties_with(key)),
        decreases mapped@.len() - k,
    {
        let x = mapped[k].clone();
        proof {
            broadcast use vstd::seq_lib::group_to_multiset_ensures;

            assert(mapped@.subrange(0, k + 1) =~= mapped@.subrange(0, k as int).push(x));
            assert(views(mapped@.subrange(0, k + 1)) =~= views(mapped@.subrange(0, k as int)).push(
                device_view(x),
            ));
        }
        insert_in_order(&mut out, x);
        proof {
            broadcast use Seq::lemma_filter_push;

            assert forall|key: Seq<char>|
                #[trigger] views(out@).filter(ties_with(key)) == views(
                    mapped@.subrange(0, k + 1),
                ).filter(ties_with(key)) by {
                assert(views(mapped@.subrange(0, k + 1)).filter(ties_with(key)) == views(
                    mapped@.subrange(0, k as int),
                ).push(device_view(x)).filter(ties_with(key)));
            }
        }
        k = k + 1;
    }
    proof {
        assert(mapped@.subrange(0, mapped@.len() as int) =~= mapped@);
    }
    out
}

/// The standard-library value for a path comparison outcome.
pub open spec fn std_ordering(o: PathOrder) -> Ordering {
    match o {
        PathOrder::Less => Ordering::Less,
        PathOrder::Equal => Ordering::Equal,
        PathOrder::Greater => Ordering::Greater,
    }
}

/// Natural order of two device paths: digit runs compare by numeric value,
/// other characters by code point, so `ttyUSB2 < ttyUSB10` and `COM9 < COM10`.
pub fn compare_serial_paths(left: &str, right: &str) -> (r: Ordering)
    ensures
        r == std_ordering(natural_order(left@, right@)),
{
    match natural_path_order(left, right) {
        PathOrder::Less => Ordering::Less,
        PathOrder::Equal => Ordering::Equal,
        PathOrder::Greater => Ordering::Greater,
    }
}

/// Splits a path into its leading run of ASCII digits and the rest.
pub fn split_ascii_digits(path: &str) -> (r: (&str, &str))
    ensures
        r.0@ == path@.take(digit_run(path@) as int),
        r.1@ == path@.skip(digit_run(path@) as int),
{
    let n = path.unicode_len();
    let mut end: usize = 0;
    assert(path@.skip(0) =~= path@);
    while end < n && '0' <= path.get_char(end) && path.get_char(end) <= '9'
        invariant
            n == path@.len(),
            end <= n,
            digit_run(path@) == end + digit_run(path@.skip(end as int)),
        decreases n - end,
    {
        assert(path@.skip(end as int).drop_first() =~= path@.skip(end + 1));
        end = end + 1;
    }
    proof {
        assert(path@.skip(0) =~= path@);
    }
    (path.substring_char(0, end), path.substring_char(end, n))
}

} // verus!
