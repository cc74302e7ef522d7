//! Connection status shown in the status bar.

use vstd::prelude::*;
use crate::text::concat_str;

verus! {

/// Whether the console is connected, connecting, or lost its control device.
#[derive(Debug, PartialEq, Eq)]
pub enum ConnectionStatus {
    Disconnected,
    Connecting,
    Connected,
    ControlOffline(String),
}

impl Clone for ConnectionStatus {
    fn clone(&self) -> (r: Self)
        ensures
            r == *self,
    {
        match self {
            ConnectionStatus::Disconnected => ConnectionStatus::Disconnected,
            ConnectionStatus::Connecting => ConnectionStatus::Connecting,
            ConnectionStatus::Connected => ConnectionStatus::Connected,
            ConnectionStatus::ControlOffline(r) => ConnectionStatus::ControlOffline(r.clone()),
        }
    }
}

/// Status of the console: off the work view it is disconnected; an offline
/// reason wins over everything else; otherwise an online control device means
/// connected and a missing one means still connecting.
pub open spec fn status_of(
    work_view: bool,
    control_online: bool,
    offline_reason: Option<String>,
) -> ConnectionStatus {
    if !work_view {
        ConnectionStatus::Disconnected
    } else {
        match offline_reason {
            Some(reason) => ConnectionStatus::ControlOffline(reason),
            None => if control_online {
                ConnectionStatus::Connected
            } else {
                ConnectionStatus::Connecting
            },
        }
    }
}

/// Derives the connection status (see [`status_of`]).
pub fn derive_status(work_view: bool, control_online: bool, offline_reason: Option<String>) -> (r:
    ConnectionStatus)
    ensures
        r == status_of(work_view, control_online, offline_reason),
{
    if !work_view {
        return ConnectionStatus::Disconnected;
    }
    match offline_reason {
        Some(reason) => ConnectionStatus::ControlOffline(reason),
        None => if control_online {
            ConnectionStatus::Connected
        } else {
            ConnectionStatus::Connecting
        },
    }
}

/// Status-bar text of a status, in Chinese or in English.
pub open spec fn status_text(status: ConnectionStatus, zh: bool) -> Seq<char> {
    match status {
        ConnectionStatus::Disconnected => if zh {
            "未连接"@
        } else {
            "Disconnected"@
        },
        ConnectionStatus::Connecting => if zh {
            "连接中"@
        } else {
            "Connecting"@
        },
        ConnectionStatus::Connected => if zh {
            "已连接"@
        } else {
            "Connected"@
        },
        ConnectionStatus::ControlOffline(reason) => if zh {
            "控制设备离线："@ + reason@
        } else {
            "Control offline: "@ + reason@
        },
    }
}

impl ConnectionStatus {
    /// The status-bar text (see [`status_text`]).
    pub fn label(&self, zh: bool) -> (r: String)
        ensures
            r@ == status_text(*self, zh),
    {
        match self {
            ConnectionStatus::Disconnected => if zh {
                String::from_str("未连接")
            } else {
                String::from_str("Disconnected")
            },
            ConnectionStatus::Connecting => if zh {
                String::from_str("连接中")
            } else {
                String::from_str("Connecting")
            },
            ConnectionStatus::Connected => if zh {
                String::from_str("已连接")
            } else {
                String::from_str("Connected")
            },
            ConnectionStatus::ControlOffline(reason) => if zh {
                concat_str("控制设备离线：", reason.as_str())
            } else {
                concat_str("Control offline: ", reason.as_str())
            },
        }
    }
}

} // verus!
