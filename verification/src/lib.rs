//! Device selection, input mapping and session decision logic for a software
//! IP-KVM console: a capture card provides the target's screen, a CH9329
//! serial bridge injects USB HID keyboard and mouse events.

pub mod clipboard;
pub mod config;
pub mod connect;
pub mod console;
pub mod cursor;
pub mod desktop_input;
pub mod device;
pub mod focus;
pub mod headless;
pub mod frame;
pub mod input;
pub mod keymap;
pub mod locale;
pub mod menus;
pub mod messages;
pub mod natural;
pub mod perf;
pub mod platform;
pub mod probe;
pub mod profile;
pub mod remote;
pub mod scale;
pub mod session;
pub mod sink;
pub mod state;
pub mod status;
pub mod text;
