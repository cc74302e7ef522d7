//! Connection parameters and saved connection profiles.

use vstd::prelude::*;

verus! {

/// How pointer motion reaches the target: absolute coordinates or deltas.
#[derive(Clone, Copy, Debug, PartialEq, Eq, Structural)]
pub enum MouseMode {
    Absolute,
    Relative,
}

/// Parameters of a connection. The relative-mode sensitivity is kept in
/// thousandths (1000 is a factor of 1.0).
#[derive(Clone, Copy, Debug, PartialEq, Eq, Structural)]
pub struct ConnectionSettings {
    pub baud_rate: u32,
    pub preview_fps: u64,
    pub auto_baud: bool,
    pub mouse_mode: MouseMode,
    pub relative_sensitivity_milli: u32,
}

/// Factory baud rate of the CH9329.
pub const DEFAULT_BAUD_RATE: u32 = 9600;

/// Preview frame rate used unless configured otherwise.
pub const DEFAULT_PREVIEW_FPS: u64 = 30;

impl Default for ConnectionSettings {
    fn default() -> (r: Self)
        ensures
            r == (ConnectionSettings {
                baud_rate: DEFAULT_BAUD_RATE,
                preview_fps: DEFAULT_PREVIEW_FPS,
                auto_baud: true,
                mouse_mode: MouseMode::Absolute,
                relative_sensitivity_milli: 1000,
            }),
    {
        ConnectionSettings {
            baud_rate: DEFAULT_BAUD_RATE,
            preview_fps: DEFAULT_PREVIEW_FPS,
            auto_baud: true,
            mouse_mode: MouseMode::Absolute,
            relative_sensitivity_milli: 1000,
        }
    }
}

/// A device remembered by id, with the label it had when saved.
#[derive(Debug, PartialEq, Eq)]
pub struct DeviceRef {
    pub id: String,
    pub label: String,
}

impl Clone for DeviceRef {
    fn clone(&self) -> (r: Self)
        ensures
            r == *self,
    {
        DeviceRef { id: self.id.clone(), label: self.label.clone() }
    }
}

/// A named selection of devices plus connection parameters.
#[derive(Debug, PartialEq, Eq)]
pub struct Profile {
    pub name: String,
    pub video_device: Option<DeviceRef>,
    pub control_device: Option<DeviceRef>,
    pub connection: ConnectionSettings,
}

impl Clone for Profile {
    fn clone(&self) -> (r: Self)
        ensures
            r == *self,
    {
        Profile {
            name: self.name.clone(),
            video_device: self.video_device.clone(),
            control_device: self.control_device.clone(),
            connection: self.connection,
        }
    }
}

/// The last manual (not profile-based) connection, restored at start-up.
#[derive(Debug, PartialEq, Eq)]
pub struct ManualSnapshot {
    pub video_device: Option<DeviceRef>,
    pub control_device: Option<DeviceRef>,
    pub connection: ConnectionSettings,
}

/// What a connection needs: both device ids and the connection parameters.
#[derive(Debug, PartialEq, Eq)]
pub struct ConnectRequest {
    pub video_device_id: String,
    pub control_device_id: String,
    pub baud_rate: u32,
    pub mouse_mode: MouseMode,
    pub preview_fps: u64,
}

} // verus!
