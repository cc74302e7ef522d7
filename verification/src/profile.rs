//! Applying a profile to the device selection, and capturing the selection as
//! a profile.

use vstd::prelude::*;
use crate::config::{ConnectionSettings, DeviceRef, Profile};
use crate::state::{
    find_by_id, first_with_id, has_id, ControlProbeStatus, DeviceOption, DeviceSelectionState,
    VideoProbeStatus,
};

verus! {

/// Which sides of a profile named a device that is not present.
#[derive(Clone, Copy, Debug, Default, PartialEq, Eq, Structural)]
pub struct MissingDevices {
    pub video: bool,
    pub control: bool,
}

/// The label to remember for a selected id: the label of the first device with
/// that id, or the id itself when no device carries it.
pub open spec fn remembered_label(devices: Seq<DeviceOption>, id: Seq<char>) -> Seq<char> {
    if has_id(devices, id) {
        devices[choose|i: int| first_with_id(devices, id, i)].label@
    } else {
        id
    }
}

/// Remembers the selected device by id and label.
pub fn selected_device_ref(devices: &[DeviceOption], selected_id: Option<&str>) -> (r: Option<
    DeviceRef,
>)
    ensures
        selected_id is None ==> r is None,
        selected_id matches Some(id) ==> (r matches Some(d) && d.id@ == id@ && d.label@
            == remembered_label(devices@, id@)),
{
    let id = match selected_id {
        Some(id) => id.to_owned(),
        None => {
            return None;
        },
    };
    let mut i: usize = 0;
    while i < devices.len()
        invariant
            i <= devices@.len(),
            selected_id is Some,
            selected_id.unwrap()@ == id@,
            forall|j: int| 0 <= j < i ==> (#[trigger] devices@[j]).id@ != id@,
        decreases devices@.len() - i,
    {
        if devices[i].id == id {
            assert(first_with_id(devices@, id@, i as int));
            let label = devices[i].label.clone();
            proof {
                let k = choose|k: int| first_with_id(devices@, id@, k);
                assert(k == i) by {
                    if k < i {
                        assert(devices@[k].id@ != id@);
                    } else if k > i {
                        assert(devices@[i as int].id@ != id@);
                    }
                }
            }
            return Some(DeviceRef { id, label });
        }
        i = i + 1;
    }
    let label = id.clone();
    Some(DeviceRef { id, label })
}

/// Selection of one side after a profile names `device` there: a present
/// device is selected and re-checked, anything else clears the side.
pub open spec fn side_applied(
    devices: Seq<DeviceOption>,
    device: Option<DeviceRef>,
) -> Option<Seq<char>> {
    match device {
        Some(d) => if has_id(devices, d.id@) {
            Some(d.id@)
        } else {
            None
        },
        None => None,
    }
}

/// The profile names a device on this side that is not present.
pub open spec fn side_missing(devices: Seq<DeviceOption>, device: Option<DeviceRef>) -> bool {
    device matches Some(d) && !has_id(devices, d.id@)
}

/// The selected id, as characters.
pub open spec fn id_view(id: Option<String>) -> Option<Seq<char>> {
    match id {
        Some(s) => Some(s@),
        None => None,
    }
}

/// Unselects one side.
pub fn clear_device_selection(selection: &mut DeviceSelectionState, is_video: bool)
    ensures
        is_video ==> {
            &&& final(selection).selected_video_id is None
            &&& final(selection).video_status is NotSelected
            &&& final(selection).selected_control_id == old(selection).selected_control_id
            &&& final(selection).control_status == old(selection).control_status
        },
        !is_video ==> {
            &&& final(selection).selected_control_id is None
            &&& final(selection).control_status is NotSelected
            &&& final(selection).selected_video_id == old(selection).selected_video_id
            &&& final(selection).video_status == old(selection).video_status
        },
        final(selection).video_devices == old(selection).video_devices,
        final(selection).control_devices == old(selection).control_devices,
{
    if is_video {
        selection.selected_video_id = None;
        selection.video_status = VideoProbeStatus::NotSelected;
    } else {
        selection.selected_control_id = None;
        selection.control_status = ControlProbeStatus::NotSelected;
    }
}

/// Applies one side of a profile; returns whether the named device is missing.
pub fn apply_device_ref(
    selection: &mut DeviceSelectionState,
    device: Option<DeviceRef>,
    is_video: bool,
) -> (missing: bool)
    ensures
        final(selection).video_devices == old(selection).video_devices,
        final(selection).control_devices == old(selection).control_devices,
        is_video ==> {
            &&& missing == side_missing(old(selection).video_devices@, device)
            &&& id_view(final(selection).selected_video_id) == side_applied(
                old(selection).video_devices@,
                device,
            )
            &&& (if side_applied(old(selection).video_devices@, device) is Some {
                final(selection).video_status is Checking
            } else {
                final(selection).video_status is NotSelected
            })
            &&& final(selection).selected_control_id == old(selection).selected_control_id
            &&& final(selection).control_status == old(selection).control_status
        },
        !is_video ==> {
            &&& missing == side_missing(old(selection).control_devices@, device)
            &&& id_view(final(selection).selected_control_id) == side_applied(
                old(selection).control_devices@,
                device,
            )
            &&& (if side_applied(old(selection).control_devices@, device) is Some {
                final(selection).control_status is Checking
            } else {
                final(selection).control_status is NotSelected
            })
            &&& final(selection).selected_video_id == old(selection).selected_video_id
            &&& final(selection).video_status == old(selection).video_status
        },
{
    let device = match device {
        Some(d) => d,
        None => {
            clear_device_selection(selection, is_video);
            return false;
        },
    };
    let found = if is_video {
        find_by_id(&selection.video_devices, &device.id)
    } else {
        find_by_id(&selection.control_devices, &device.id)
    };
    match found {
        Some(i) => {
            if is_video {
                let id = selection.video_devices[i].id.clone();
                selection.selected_video_id = Some(id);
                selection.video_status = VideoProbeStatus::Checking;
            } else {
                let id = selection.control_devices[i].id.clone();
                selection.selected_control_id = Some(id);
                selection.control_status = ControlProbeStatus::Checking;
            }
            false
        },
        None => {
            clear_device_selection(selection, is_video);
            true
        },
    }
}

/// Applies a profile: each side selects the named device when it is present
/// (and marks it for re-checking), otherwise clears that side and reports it
/// missing. The device lists are left alone.
pub fn apply_profile_to_selection(selection: &mut DeviceSelectionState, profile: &Profile) -> (r:
    MissingDevices)
    ensures
        r.video == side_missing(old(selection).video_devices@, profile.video_device),
        r.control == side_missing(old(selection).control_devices@, profile.control_device),
        id_view(final(selection).selected_video_id) == side_applied(
            old(selection).video_devices@,
            profile.video_device,
        ),
        id_view(final(selection).selected_control_id) == side_applied(
            old(selection).control_devices@,
            profile.control_device,
        ),
        (if side_applied(old(selection).video_devices@, profile.video_device) is Some {
            final(selection).video_status is Checking
        } else {
            final(selection).video_status is NotSelected
        }),
        (if side_applied(old(selection).control_devices@, profile.control_device) is Some {
            final(selection).control_status is Checking
        } else {
            final(selection).control_status is NotSelected
        }),
        final(selection).video_devices == old(selection).video_devices,
        final(selection).control_devices == old(selection).control_devices,
{
    let mut missing = MissingDevices { video: false, control: false };
    if apply_device_ref(selection, profile.video_device.clone(), true) {
        missing.video = true;
    }
    if apply_device_ref(selection, profile.control_device.clone(), false) {
        missing.control = true;
    }
    missing
}

/// Captures the current selection and connection parameters as a profile.
pub fn build_profile(
    name: String,
    selection: &DeviceSelectionState,
    connection: &ConnectionSettings,
) -> (r: Profile)
    ensures
        r.name == name,
        r.connection == *connection,
        selection.selected_video_id is None ==> r.video_device is None,
        selection.selected_video_id matches Some(id) ==> (r.video_device matches Some(d) && d.id@
            == id@ && d.label@ == remembered_label(selection.video_devices@, id@)),
        selection.selected_control_id is None ==> r.control_device is None,
        selection.selected_control_id matches Some(id) ==> (r.control_device matches Some(d)
            && d.id@ == id@ && d.label@ == remembered_label(selection.control_devices@, id@)),
{
    let video_id = match &selection.selected_video_id {
        Some(id) => Some(id.as_str()),
        None => None,
    };
    let control_id = match &selection.selected_control_id {
        Some(id) => Some(id.as_str()),
        None => None,
    };
    Profile {
        name,
        video_device: selected_device_ref(selection.video_devices.as_slice(), video_id),
        control_device: selected_device_ref(selection.control_devices.as_slice(), control_id),
        connection: *connection,
    }
}

/// A profile built from a selection selects the same device again when it is
/// loaded while the device is listed.
pub proof fn lemma_saved_device_reselected(
    devices: Seq<DeviceOption>,
    selected: Seq<char>,
    saved: DeviceRef,
)
    requires
        has_id(devices, selected),
        saved.id@ == selected,
    ensures
        side_applied(devices, Some(saved)) == Some(selected),
        !side_missing(devices, Some(saved)),
{
}

/// A device that is not listed is reported missing and leaves its side
/// unselected.
pub proof fn lemma_unlisted_device_missing(devices: Seq<DeviceOption>, saved: DeviceRef)
    requires
        !has_id(devices, saved.id@),
    ensures
        side_applied(devices, Some(saved)) is None,
        side_missing(devices, Some(saved)),
{
}

} // verus!
