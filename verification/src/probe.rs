//! Selectable devices of the desktop console, built from the device
//! inventory, and baud-rate detection over the candidate rates.

use vstd::prelude::*;
use crate::device::{
    provider_error_text, DeviceInventoryProvider, DeviceProviderError, SerialDevice, VideoDevice,
};
use crate::state::{ControlInfo, ControlProbeStatus, DeviceOption};
use crate::text::concat_str;

verus! {

/// Baud rates tried when detecting the rate of a CH9329, fastest first.
pub const BAUD_CANDIDATES: [u32; 5] = [115200, 57600, 38400, 19200, 9600];

/// Listing one of the device kinds failed, with the provider's message.
#[derive(Debug, PartialEq, Eq)]
pub enum ProbeError {
    VideoList(String),
    ControlList(String),
}

/// Video devices as options: the id, labelled with the display name.
pub fn video_options(devices: Vec<VideoDevice>) -> (r: Vec<DeviceOption>)
    ensures
        r@.len() == devices@.len(),
        forall|i: int|
            0 <= i < r@.len() ==> #[trigger] r@[i].id == devices@[i].id && r@[i].label
                == devices@[i].display_name,
{
    let mut r: Vec<DeviceOption> = Vec::new();
    let mut i: usize = 0;
    while i < devices.len()
        invariant
            i <= devices@.len(),
            r@.len() == i,
            forall|k: int|
                0 <= k < i ==> #[trigger] r@[k].id == devices@[k].id && r@[k].label
                    == devices@[k].display_name,
        decreases devices@.len() - i,
    {
        r.push(
            DeviceOption { id: devices[i].id.clone(), label: devices[i].display_name.clone() },
        );
        i = i + 1;
    }
    r
}

/// The name a serial device is offered under: its display name, or its path
/// when the display name is empty.
pub open spec fn base_label(d: SerialDevice) -> Seq<char> {
    if d.display_name@.len() == 0 {
        d.path@
    } else {
        d.display_name@
    }
}

/// How many devices of `s` are offered under `label`.
pub open spec fn label_count(s: Seq<SerialDevice>, label: Seq<char>) -> nat
    decreases s.len(),
{
    if s.len() == 0 {
        0
    } else {
        label_count(s.drop_last(), label) + if base_label(s.last()) == label {
            1nat
        } else {
            0nat
        }
    }
}

/// The label of the device at `i`: its base label, followed by its path in
/// brackets when an earlier device has the same base label.
pub open spec fn control_label(s: Seq<SerialDevice>, i: int) -> Seq<char> {
    if label_count(s.take(i), base_label(s[i])) > 0 {
        base_label(s[i]) + " ("@ + s[i].path@ + ")"@
    } else {
        base_label(s[i])
    }
}

fn base_label_of(d: &SerialDevice) -> (r: String)
    ensures
        r@ == base_label(*d),
{
    if d.display_name.unicode_len() == 0 {
        d.path.clone()
    } else {
        d.display_name.clone()
    }
}

/// Serial devices as options: the path, labelled so that equal names stay
/// apart (see [`control_label`]).
pub fn control_options(devices: Vec<SerialDevice>) -> (r: Vec<DeviceOption>)
    ensures
        r@.len() == devices@.len(),
        forall|i: int|
            0 <= i < r@.len() ==> #[trigger] r@[i].id == devices@[i].path && r@[i].label@
                == control_label(devices@, i),
{
    let mut bases: Vec<String> = Vec::new();
    let mut r: Vec<DeviceOption> = Vec::new();
    let mut i: usize = 0;
    while i < devices.len()
        invariant
            i <= devices@.len(),
            r@.len() == i,
            bases@.len() == i,
            forall|k: int| 0 <= k < i ==> (#[trigger] bases@[k])@ == base_label(devices@[k]),
            forall|k: int|
                0 <= k < i ==> #[trigger] r@[k].id == devices@[k].path && r@[k].label@
                    == control_label(devices@, k),
        decreases devices@.len() - i,
    {
        let base = base_label_of(&devices[i]);
        let mut seen = false;
        let mut j: usize = 0;
        while j < i
            invariant
                i < devices@.len(),
                j <= i,
                bases@.len() == i,
                base@ == base_label(devices@[i as int]),
                forall|k: int| 0 <= k < i ==> (#[trigger] bases@[k])@ == base_label(devices@[k]),
                seen == (label_count(devices@.take(j as int), base@) > 0),
            decreases i - j,
        {
            assert(devices@.take(j + 1).drop_last() =~= devices@.take(j as int));
            if bases[j] == base {
                seen = true;
            }
            j = j + 1;
        }
        let label = if seen {
            proof {
                reveal_strlit(" (");
                reveal_strlit(")");
            }
            let with_open = concat_str(base.as_str(), " (");
            let with_path = concat_str(with_open.as_str(), devices[i].path.as_str());
            concat_str(with_path.as_str(), ")")
        } else {
            base.clone()
        };
        r.push(DeviceOption { id: devices[i].path.clone(), label });
        bases.push(base);
        i = i + 1;
    }
    r
}

/// A video enumeration answer as options, or its failure.
pub fn video_answer_options(answer: Result<Vec<VideoDevice>, DeviceProviderError>) -> (r: Result<
    Vec<DeviceOption>,
    ProbeError,
>)
    ensures
        match answer {
            Ok(devices) => r matches Ok(options) && options@.len() == devices@.len() && forall|
                i: int,
            |
                0 <= i < options@.len() ==> #[trigger] options@[i].id == devices@[i].id
                    && options@[i].label == devices@[i].display_name,
            Err(e) => r matches Err(ProbeError::VideoList(m)) && m@ == provider_error_text(e),
        },
{
    match answer {
        Ok(devices) => Ok(video_options(devices)),
        Err(error) => Err(ProbeError::VideoList(error.message())),
    }
}

/// A serial enumeration answer as options, or its failure.
pub fn control_answer_options(answer: Result<Vec<SerialDevice>, DeviceProviderError>) -> (r:
    Result<Vec<DeviceOption>, ProbeError>)
    ensures
        match answer {
            Ok(devices) => r matches Ok(options) && options@.len() == devices@.len() && forall|
                i: int,
            |
                0 <= i < options@.len() ==> #[trigger] options@[i].id == devices@[i].path
                    && options@[i].label@ == control_label(devices@, i),
            Err(e) => r matches Err(ProbeError::ControlList(m)) && m@ == provider_error_text(e),
        },
{
    match answer {
        Ok(devices) => Ok(control_options(devices)),
        Err(error) => Err(ProbeError::ControlList(error.message())),
    }
}

/// `r` is the result of [`video_answer_options`] for the provider's answer
/// `answer`.
pub open spec fn video_answer_is(
    answer: Result<Vec<VideoDevice>, DeviceProviderError>,
    r: Result<Vec<DeviceOption>, ProbeError>,
) -> bool {
    match answer {
        Ok(devices) => r matches Ok(options) && options@.len() == devices@.len() && forall|i: int|
            0 <= i < options@.len() ==> #[trigger] options@[i].id == devices@[i].id
                && options@[i].label == devices@[i].display_name,
        Err(e) => r matches Err(ProbeError::VideoList(m)) && m@ == provider_error_text(e),
    }
}

/// `r` is the result of [`control_answer_options`] for the provider's answer
/// `answer`.
pub open spec fn control_answer_is(
    answer: Result<Vec<SerialDevice>, DeviceProviderError>,
    r: Result<Vec<DeviceOption>, ProbeError>,
) -> bool {
    match answer {
        Ok(devices) => r matches Ok(options) && options@.len() == devices@.len() && forall|i: int|
            0 <= i < options@.len() ==> #[trigger] options@[i].id == devices@[i].path
                && options@[i].label@ == control_label(devices@, i),
        Err(e) => r matches Err(ProbeError::ControlList(m)) && m@ == provider_error_text(e),
    }
}

/// The video devices a provider lists, as options: whatever the provider
/// answers, the result is that answer taken through
/// [`video_answer_options`].
pub fn list_video_options<P: DeviceInventoryProvider>(provider: &P) -> (r: Result<
    Vec<DeviceOption>,
    ProbeError,
>)
    ensures
        exists|answer: Result<Vec<VideoDevice>, DeviceProviderError>|
            #[trigger] video_answer_is(answer, r),
{
    let answer = provider.list_video_devices();
    let ghost a = answer;
    let r = video_answer_options(answer);
    assert(video_answer_is(a, r));
    r
}

/// The serial devices a provider lists, as options: whatever the provider
/// answers, the result is that answer taken through
/// [`control_answer_options`].
pub fn list_control_options<P: DeviceInventoryProvider>(provider: &P) -> (r: Result<
    Vec<DeviceOption>,
    ProbeError,
>)
    ensures
        exists|answer: Result<Vec<SerialDevice>, DeviceProviderError>|
            #[trigger] control_answer_is(answer, r),
{
    let answer = provider.list_serial_devices();
    let ghost a = answer;
    let r = control_answer_options(answer);
    assert(control_answer_is(a, r));
    r
}

/// Device lists of the desktop console, from a device inventory.
pub struct ProductionProbeBackend<P> {
    pub provider: P,
}

impl<P: DeviceInventoryProvider> ProductionProbeBackend<P> {
    /// The video devices as options: the provider's answer taken through
    /// [`video_answer_options`].
    pub fn list_video_devices(&self) -> (r: Result<Vec<DeviceOption>, ProbeError>)
        ensures
            exists|answer: Result<Vec<VideoDevice>, DeviceProviderError>|
                #[trigger] video_answer_is(answer, r),
    {
        let answer = self.provider.list_video_devices();
        let ghost a = answer;
        let r = video_answer_options(answer);
        assert(video_answer_is(a, r));
        r
    }

    /// The serial devices as options: the provider's answer taken through
    /// [`control_answer_options`].
    pub fn list_control_devices(&self) -> (r: Result<Vec<DeviceOption>, ProbeError>)
        ensures
            exists|answer: Result<Vec<SerialDevice>, DeviceProviderError>|
                #[trigger] control_answer_is(answer, r),
    {
        let answer = self.provider.list_serial_devices();
        let ghost a = answer;
        let r = control_answer_options(answer);
        assert(control_answer_is(a, r));
        r
    }
}

/// What one read of the serial port during a CH9329 probe brought, after the
/// bytes went through the frame decoder.
#[derive(Debug, PartialEq, Eq)]
pub enum ProbeReply {
    /// Nothing decisive: the read timed out, returned no bytes, or held bytes
    /// that did not decode into a frame.
    Pending,
    /// A valid `GetInfo` answer.
    Info { version: u8, usb_enumerated: bool },
    /// A valid frame that is not an `GetInfo` answer.
    Acknowledgement,
    /// A frame whose payload the response parser refused, with its message.
    Invalid(String),
    /// Opening, writing or reading the port failed, with the error's message.
    PortFailed(String),
}

/// The status that a decisive reply gives a probe at `baud`.
pub open spec fn reply_decides(reply: ProbeReply, baud: u32, status: ControlProbeStatus) -> bool {
    match reply {
        ProbeReply::Pending => false,
        ProbeReply::Info { version, usb_enumerated } => status == ControlProbeStatus::Ready(
            ControlInfo { version, usb_enumerated, baud },
        ),
        ProbeReply::Acknowledgement => status matches ControlProbeStatus::NotCh9329(m) && m@
            == "unexpected acknowledgement"@,
        ProbeReply::Invalid(e) => status matches ControlProbeStatus::NotCh9329(m) && m@ == e@,
        ProbeReply::PortFailed(e) => status matches ControlProbeStatus::OpenFailed(m) && m@ == e@,
    }
}

/// The outcome of probing a port at `baud_rate` for a CH9329, from the
/// replies read before the deadline, in order: the first reply that is not
/// `Pending` decides; when none does, the device did not answer.
pub fn probe_ch9329(replies: &Vec<ProbeReply>, baud_rate: u32) -> (r: ControlProbeStatus)
    ensures
        (forall|k: int| 0 <= k < replies@.len() ==> #[trigger] replies@[k] is Pending) ==> r
            is NoResponse,
        forall|i: int|
            0 <= i < replies@.len() && !(replies@[i] is Pending) && (forall|k: int|
                0 <= k < i ==> #[trigger] replies@[k] is Pending) ==> reply_decides(
                #[trigger] replies@[i],
                baud_rate,
                r,
            ),
{
    let mut i: usize = 0;
    while i < replies.len()
        invariant
            i <= replies@.len(),
            forall|k: int| 0 <= k < i ==> #[trigger] replies@[k] is Pending,
        decreases replies@.len() - i,
    {
        match &replies[i] {
            ProbeReply::Pending => {},
            ProbeReply::Info { version, usb_enumerated } => {
                return ControlProbeStatus::Ready(
                    ControlInfo { version: *version, usb_enumerated: *usb_enumerated, baud: baud_rate },
                );
            },
            ProbeReply::Acknowledgement => {
                return ControlProbeStatus::NotCh9329("unexpected acknowledgement".to_string());
            },
            ProbeReply::Invalid(e) => {
                return ControlProbeStatus::NotCh9329(e.clone());
            },
            ProbeReply::PortFailed(e) => {
                return ControlProbeStatus::OpenFailed(e.clone());
            },
        }
        i = i + 1;
    }
    ControlProbeStatus::NoResponse
}

/// Probing a serial port for a CH9329 at a baud rate.
/// An implementation may say in `answers` which statuses a probe of a path
/// at a baud rate can give; by default any status can.
pub trait ControlProber {
    /// Whether `r` is a status that probing `path` at `baud_rate` can give.
    open spec fn answers(&self, path: &str, baud_rate: u32, r: ControlProbeStatus) -> bool {
        true
    }

    fn probe_control(&mut self, path: &str, baud_rate: u32) -> (r: ControlProbeStatus)
        ensures
            old(self).answers(path, baud_rate, r),
            forall|p: &str, b: u32, s: ControlProbeStatus|
                #[trigger] final(self).answers(p, b, s) == old(self).answers(p, b, s),
    ;
}

/// `answers` are the statuses got by probing `path` at the candidate rates in
/// order (`answers[k]` at `BAUD_CANDIDATES[k]`), stopping at the first
/// `Ready`: every answer but the last is not `Ready`, and fewer than all five
/// rates were tried only when the last answer is `Ready`.
pub open spec fn probed_in_order<P: ControlProber>(
    prober: P,
    path: &str,
    answers: Seq<ControlProbeStatus>,
) -> bool {
    &&& answers.len() <= 5
    &&& forall|k: int|
        0 <= k < answers.len() ==> prober.answers(path, BAUD_CANDIDATES@[k], #[trigger] answers[k])
    &&& forall|k: int| 0 <= k < answers.len() - 1 ==> !(#[trigger] answers[k] is Ready)
    &&& answers.len() < 5 ==> answers.len() > 0 && answers.last() is Ready
}

/// The baud rate chosen from the answers of probes at the candidate rates
/// taken in order (`answers[i]` at `BAUD_CANDIDATES[i]`; answers past the
/// candidates stand for no rate): the rate of the first answer that is
/// `Ready`, or none.
pub fn first_ready_baud(answers: &Vec<ControlProbeStatus>) -> (r: Option<u32>)
    ensures
        match r {
            Some(b) => exists|i: int|
                0 <= i < answers@.len() && i < 5 && (#[trigger] answers@[i] is Ready) && b
                    == BAUD_CANDIDATES@[i] && forall|k: int|
                    0 <= k < i ==> !(#[trigger] answers@[k] is Ready),
            None => forall|k: int|
                0 <= k < answers@.len() && k < 5 ==> !(#[trigger] answers@[k] is Ready),
        },
{
    let candidates = BAUD_CANDIDATES;
    let mut i: usize = 0;
    while i < answers.len() && i < 5
        invariant
            i <= answers@.len(),
            i <= 5,
            candidates@ == BAUD_CANDIDATES@,
            forall|k: int| 0 <= k < i ==> !(#[trigger] answers@[k] is Ready),
        decreases answers@.len() - i,
    {
        if let ControlProbeStatus::Ready(_) = &answers[i] {
            return Some(candidates[i]);
        }
        i = i + 1;
    }
    None
}

/// The first candidate baud rate at which the device answers as a CH9329;
/// the candidates are tried in order and trying stops at the first answer
/// that is `Ready` (see [`first_ready_baud`]). With the answers got that way,
/// the result is the rate of a last answer that is `Ready`, and none when all
/// five rates were tried without one.
pub fn detect_baud_rate<P: ControlProber>(prober: &mut P, path: &str) -> (r: Option<u32>)
    ensures
        r matches Some(b) ==> exists|i: int| 0 <= i < 5 && BAUD_CANDIDATES@[i] == b,
        exists|answers: Seq<ControlProbeStatus>|
            #[trigger] probed_in_order(*old(prober), path, answers) && (if answers.len() > 0
                && answers.last() is Ready {
                r == Some(BAUD_CANDIDATES@[answers.len() - 1])
            } else {
                r is None
            }),
{
    let candidates = BAUD_CANDIDATES;
    let mut answers: Vec<ControlProbeStatus> = Vec::new();
    let mut found = false;
    let mut i: usize = 0;
    while i < 5 && !found
        invariant
            i <= 5,
            answers@.len() == i,
            candidates@ == BAUD_CANDIDATES@,
            forall|k: int|
                0 <= k < i ==> old(prober).answers(
                    path,
                    BAUD_CANDIDATES@[k],
                    #[trigger] answers@[k],
                ),
            forall|k: int| 0 <= k < i - 1 ==> !(#[trigger] answers@[k] is Ready),
            found == (i > 0 && answers@[i - 1] is Ready),
            forall|p: &str, b: u32, s: ControlProbeStatus|
                #[trigger] prober.answers(p, b, s) == old(prober).answers(p, b, s),
        decreases 5 - i,
    {
        let answer = prober.probe_control(path, candidates[i]);
        found = matches!(answer, ControlProbeStatus::Ready(_));
        answers.push(answer);
        i = i + 1;
    }
    let r = first_ready_baud(&answers);
    assert(probed_in_order(*old(prober), path, answers@));
    r
}

/// The candidate baud rates, fastest first, down to the CH9329's factory
/// rate of 9600.
pub proof fn lemma_baud_candidates()
    ensures
        BAUD_CANDIDATES@ == seq![115200u32, 57600u32, 38400u32, 19200u32, 9600u32],
{
    assert(BAUD_CANDIDATES@ =~= seq![115200u32, 57600u32, 38400u32, 19200u32, 9600u32]);
}

} // verus!
