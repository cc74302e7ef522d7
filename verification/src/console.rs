//! Decisions of the connection page and its dialogs: device selection,
//! connection parameters, the settings and profile dialogs and the menu.
//! Probing, storage and drawing happen around these functions; each of them
//! takes what those produced and says what changes.

use vstd::prelude::*;
use crate::config::{
    ConnectRequest, ConnectionSettings, ManualSnapshot, MouseMode, Profile, DEFAULT_BAUD_RATE,
    DEFAULT_PREVIEW_FPS,
};
use crate::connect::{
    refresh_action_for, refresh_preview, selected_video_present, PreviewRefreshAction,
};
use crate::input::{special_key_from_menu, special_key_named, SpecialKey};
use crate::locale::AppLanguage;
use crate::probe::ProbeError;
use crate::profile::{
    apply_profile_to_selection, build_profile, id_view, remembered_label, selected_device_ref,
    side_applied, side_missing, MissingDevices,
};
use crate::scale::ScaleMode;
use crate::state::{
    find_by_id, find_by_label, first_with_id, first_with_label, has_id, has_label, stamped_probe,
    ControlProbeStatus, DeviceOption, DeviceSelectionState, VideoProbeStatus,
};
use crate::text::{
    decimal_digits, decimal_string, lemma_decimal_parses_back, lemma_decimal_untrimmed,
    parse_unsigned, parsed_unsigned, trim, trimmed,
};

verus! {

/// The application dialogs.
#[derive(Clone, Copy, Debug, PartialEq, Eq, Structural)]
pub enum ModalKind {
    Settings,
    Connection,
    SaveProfile,
    About,
}

/// Entries of the language menu.
#[derive(Clone, Copy, Debug, PartialEq, Eq, Structural)]
pub enum LanguageChoice {
    System,
    Chinese,
    English,
}

/// The language a menu entry stands for.
pub open spec fn language_of(choice: LanguageChoice) -> AppLanguage {
    match choice {
        LanguageChoice::System => AppLanguage::System,
        LanguageChoice::Chinese => AppLanguage::Chinese,
        LanguageChoice::English => AppLanguage::English,
    }
}

impl From<LanguageChoice> for AppLanguage {
    fn from(choice: LanguageChoice) -> (r: AppLanguage) {
        match choice {
            LanguageChoice::System => AppLanguage::System,
            LanguageChoice::Chinese => AppLanguage::Chinese,
            LanguageChoice::English => AppLanguage::English,
        }
    }
}

impl vstd::std_specs::convert::FromSpecImpl<LanguageChoice> for AppLanguage {
    open spec fn obeys_from_spec() -> bool {
        true
    }

    open spec fn from_spec(choice: LanguageChoice) -> AppLanguage {
        language_of(choice)
    }
}

/// What a menu entry asks for.
#[derive(Debug, PartialEq, Eq)]
pub enum MenuAction {
    OpenModal(ModalKind),
    SetLanguage(LanguageChoice),
    LoadRecent(String),
    SpecialKey(String),
    Disconnect,
    Simple(&'static str),
}

/// What the application does for a menu entry.
#[derive(Debug, PartialEq, Eq)]
pub enum MenuCommand {
    OpenModal(ModalKind),
    SetLanguage(AppLanguage),
    LoadRecent(String),
    SendSpecial(SpecialKey),
    Disconnect,
    Paste,
    CopyScreenshot,
    SaveScreenshot,
    LoadProfileFile,
    Exit,
    ProjectHome,
    ReleaseAll,
    Nothing,
}

/// The command behind one of the simple menu entries, by its name.
pub open spec fn simple_command(name: Seq<char>) -> MenuCommand {
    if name == "paste"@ {
        MenuCommand::Paste
    } else if name == "copy_screenshot"@ {
        MenuCommand::CopyScreenshot
    } else if name == "save_screenshot"@ {
        MenuCommand::SaveScreenshot
    } else if name == "load_profile"@ {
        MenuCommand::LoadProfileFile
    } else if name == "exit"@ {
        MenuCommand::Exit
    } else if name == "project_home"@ {
        MenuCommand::ProjectHome
    } else if name == "release_all"@ {
        MenuCommand::ReleaseAll
    } else {
        MenuCommand::Nothing
    }
}

/// The command behind a menu entry.
pub open spec fn command_of(action: MenuAction) -> MenuCommand {
    match action {
        MenuAction::OpenModal(kind) => MenuCommand::OpenModal(kind),
        MenuAction::SetLanguage(choice) => MenuCommand::SetLanguage(language_of(choice)),
        MenuAction::LoadRecent(name) => MenuCommand::LoadRecent(name),
        MenuAction::SpecialKey(name) => match special_key_named(name@) {
            Some(key) => MenuCommand::SendSpecial(key),
            None => MenuCommand::Nothing,
        },
        MenuAction::Disconnect => MenuCommand::Disconnect,
        MenuAction::Simple(name) => simple_command(name@),
    }
}

/// Dispatches a menu entry to the command it stands for.
pub fn menu_command(action: MenuAction) -> (r: MenuCommand)
    ensures
        r == command_of(action),
{
    match action {
        MenuAction::OpenModal(kind) => MenuCommand::OpenModal(kind),
        MenuAction::SetLanguage(choice) => MenuCommand::SetLanguage(AppLanguage::from(choice)),
        MenuAction::LoadRecent(name) => MenuCommand::LoadRecent(name),
        MenuAction::SpecialKey(name) => match special_key_from_menu(name.as_str()) {
            Some(key) => MenuCommand::SendSpecial(key),
            None => MenuCommand::Nothing,
        },
        MenuAction::Disconnect => MenuCommand::Disconnect,
        MenuAction::Simple(name) => simple_menu_command(name),
    }
}

fn simple_menu_command(name: &str) -> (r: MenuCommand)
    ensures
        r == simple_command(name@),
{
    if crate::text::str_eq(name, "paste") {
        MenuCommand::Paste
    } else if crate::text::str_eq(name, "copy_screenshot") {
        MenuCommand::CopyScreenshot
    } else if crate::text::str_eq(name, "save_screenshot") {
        MenuCommand::SaveScreenshot
    } else if crate::text::str_eq(name, "load_profile") {
        MenuCommand::LoadProfileFile
    } else if crate::text::str_eq(name, "exit") {
        MenuCommand::Exit
    } else if crate::text::str_eq(name, "project_home") {
        MenuCommand::ProjectHome
    } else if crate::text::str_eq(name, "release_all") {
        MenuCommand::ReleaseAll
    } else {
        MenuCommand::Nothing
    }
}

/// Text of a sensitivity given in thousandths, as a decimal number without
/// trailing zeros (`1000` is `1`, `1250` is `1.25`).
pub open spec fn milli_text(m: nat) -> Seq<char> {
    let whole = decimal_digits(m / 1000);
    let frac = m % 1000;
    if frac == 0 {
        whole
    } else if frac % 100 == 0 {
        whole + "."@ + decimal_digits(frac / 100)
    } else if frac % 10 == 0 {
        whole + "."@ + decimal_digits(frac / 100) + decimal_digits((frac / 10) % 10)
    } else {
        whole + "."@ + decimal_digits(frac / 100) + decimal_digits((frac / 10) % 10)
            + decimal_digits(frac % 10)
    }
}

/// Text of a sensitivity given in thousandths (see [`milli_text`]).
pub fn milli_string(m: u32) -> (r: String)
    ensures
        r@ == milli_text(m as nat),
{
    let mut s = decimal_string((m / 1000) as u64);
    let frac = m % 1000;
    if frac == 0 {
        return s;
    }
    proof {
        reveal_strlit(".");
    }
    s.append(".");
    let d1 = decimal_string((frac / 100) as u64);
    s.append(d1.as_str());
    if frac % 100 == 0 {
        return s;
    }
    let d2 = decimal_string(((frac / 10) % 10) as u64);
    s.append(d2.as_str());
    if frac % 10 == 0 {
        return s;
    }
    let d3 = decimal_string((frac % 10) as u64);
    s.append(d3.as_str());
    s
}

/// State of the dialogs: which one is open, the profile name being typed, and
/// the connection parameters the settings dialogs show.
#[derive(Debug)]
pub struct ModalState {
    pub open: Option<ModalKind>,
    pub save_name: String,
    /// Set by a first save under a name that is taken; a second save overwrites.
    pub confirm_overwrite: bool,
    pub baud_rate: u32,
    pub preview_fps: u64,
    pub auto_baud: bool,
    pub mouse_mode: MouseMode,
    pub relative_sensitivity_milli: u32,
    /// Edit buffers of the numeric fields.
    pub baud_text: String,
    pub fps_text: String,
    pub sensitivity_text: String,
    pub scale_mode: ScaleMode,
}

impl Default for ModalState {
    fn default() -> (r: Self)
        ensures
            r.open is None,
            r.save_name@.len() == 0,
            !r.confirm_overwrite,
            r.baud_rate == DEFAULT_BAUD_RATE,
            r.preview_fps == DEFAULT_PREVIEW_FPS,
            r.auto_baud,
            r.mouse_mode == MouseMode::Absolute,
            r.relative_sensitivity_milli == 1000,
            r.baud_text@ == decimal_digits(DEFAULT_BAUD_RATE as nat),
            r.fps_text@ == decimal_digits(DEFAULT_PREVIEW_FPS as nat),
            r.sensitivity_text@ == milli_text(1000),
            r.scale_mode == ScaleMode::FitWindow,
    {
        ModalState {
            open: None,
            save_name: String::new(),
            confirm_overwrite: false,
            baud_rate: DEFAULT_BAUD_RATE,
            preview_fps: DEFAULT_PREVIEW_FPS,
            auto_baud: true,
            mouse_mode: MouseMode::Absolute,
            relative_sensitivity_milli: 1000,
            baud_text: decimal_string(DEFAULT_BAUD_RATE as u64),
            fps_text: decimal_string(DEFAULT_PREVIEW_FPS),
            sensitivity_text: milli_string(1000),
            scale_mode: ScaleMode::FitWindow,
        }
    }
}

impl ModalState {
    /// Closes the open dialog; what was typed in it stays.
    pub fn close(&mut self)
        ensures
            *final(self) == (ModalState { open: None, ..*old(self) }),
    {
        self.open = None;
    }
}

/// What the user did in a dialog. A sensitivity typed as text is parsed as a
/// decimal number outside the library and arrives with its clamped value in
/// thousandths, or `None` when it does not parse.
#[derive(Debug, PartialEq, Eq)]
pub enum ModalAction {
    Close,
    SaveNameChanged(String),
    Save,
    CancelOverwrite,
    RestoreDefaults,
    SetBaudRate(u32),
    SetPreviewFps(u64),
    SetAutoBaud(bool),
    SetMouseMode(MouseMode),
    SetRelativeSensitivity(u32),
    BaudRateTextChanged(String),
    PreviewFpsTextChanged(String),
    RelativeSensitivityTextChanged(String, Option<u32>),
    SetScaleMode(ScaleMode),
    Noop,
}

/// What the application still has to do after a dialog action.
#[derive(Clone, Copy, Debug, PartialEq, Eq, Structural)]
pub enum ModalEffect {
    Nothing,
    /// The user asked to save the profile: see [`ConsoleState::save_target`].
    SaveRequested,
}

/// Lowest and highest baud rate a typed value is clamped to.
pub const MIN_TYPED_BAUD: u32 = 1200;
pub const MAX_TYPED_BAUD: u32 = 115200;
/// Lowest and highest preview frame rate a typed value is clamped to.
pub const MIN_TYPED_FPS: u64 = 1;
pub const MAX_TYPED_FPS: u64 = 60;

/// `v` clamped to `[lo, hi]`.
pub open spec fn clamped(v: int, lo: int, hi: int) -> int {
    if v < lo {
        lo
    } else if v > hi {
        hi
    } else {
        v
    }
}

/// The connection parameters after a dialog action edits them, or `None`
/// when the action edits none (a text that does not parse edits nothing).
pub open spec fn edited_connection(action: ModalAction, c: ConnectionSettings) -> Option<
    ConnectionSettings,
> {
    match action {
        ModalAction::SetBaudRate(b) => Some(ConnectionSettings { baud_rate: b, ..c }),
        ModalAction::SetPreviewFps(f) => Some(ConnectionSettings { preview_fps: f, ..c }),
        ModalAction::SetAutoBaud(e) => Some(ConnectionSettings { auto_baud: e, ..c }),
        ModalAction::SetMouseMode(m) => Some(ConnectionSettings { mouse_mode: m, ..c }),
        ModalAction::SetRelativeSensitivity(v) => Some(
            ConnectionSettings { relative_sensitivity_milli: v, ..c },
        ),
        ModalAction::BaudRateTextChanged(t) => match parsed_unsigned(trimmed(t@), u32::MAX as nat) {
            Some(v) => Some(
                ConnectionSettings {
                    baud_rate: clamped(v as int, MIN_TYPED_BAUD as int, MAX_TYPED_BAUD as int) as u32,
                    ..c
                },
            ),
            None => None,
        },
        ModalAction::PreviewFpsTextChanged(t) => match parsed_unsigned(
            trimmed(t@),
            u64::MAX as nat,
        ) {
            Some(v) => Some(
                ConnectionSettings {
                    preview_fps: clamped(v as int, MIN_TYPED_FPS as int, MAX_TYPED_FPS as int) as u64,
                    ..c
                },
            ),
            None => None,
        },
        ModalAction::RelativeSensitivityTextChanged(_, parsed) => match parsed {
            Some(v) => Some(ConnectionSettings { relative_sensitivity_milli: v, ..c }),
            None => None,
        },
        _ => None,
    }
}

/// Edit buffer of the baud rate after a dialog action; `restored` is what
/// restoring the defaults sets the parameters to.
pub open spec fn baud_text_after(action: ModalAction, text: Seq<char>, restored: ConnectionSettings) -> Seq<
    char,
> {
    match action {
        ModalAction::SetBaudRate(b) => decimal_digits(b as nat),
        ModalAction::BaudRateTextChanged(t) => t@,
        ModalAction::RestoreDefaults => decimal_digits(restored.baud_rate as nat),
        _ => text,
    }
}

/// Edit buffer of the frame rate after a dialog action.
pub open spec fn fps_text_after(action: ModalAction, text: Seq<char>, restored: ConnectionSettings) -> Seq<
    char,
> {
    match action {
        ModalAction::SetPreviewFps(f) => decimal_digits(f as nat),
        ModalAction::PreviewFpsTextChanged(t) => t@,
        ModalAction::RestoreDefaults => decimal_digits(restored.preview_fps as nat),
        _ => text,
    }
}

/// Edit buffer of the sensitivity after a dialog action.
pub open spec fn sensitivity_text_after(
    action: ModalAction,
    text: Seq<char>,
    restored: ConnectionSettings,
) -> Seq<char> {
    match action {
        ModalAction::SetRelativeSensitivity(v) => milli_text(v as nat),
        ModalAction::RelativeSensitivityTextChanged(t, _) => t@,
        ModalAction::RestoreDefaults => milli_text(restored.relative_sensitivity_milli as nat),
        _ => text,
    }
}

/// A save under a name that is taken or not, with or without a pending
/// confirmation: whether the profile is written, and whether a confirmation
/// is pending afterwards.
pub open spec fn save_outcome(confirm_pending: bool, name_taken: bool) -> (bool, bool) {
    if name_taken && !confirm_pending {
        (false, true)
    } else {
        (true, confirm_pending)
    }
}

/// Whether a connection is recorded as a recently used profile or as the last
/// manual connection.
#[derive(Debug, PartialEq, Eq)]
pub enum ConnectRecord {
    RecentProfile(String),
    LastManual(ManualSnapshot),
}

/// The connection page: device selection, the parameters of the next
/// connection, the defaults, the profile the selection came from (if it was
/// not changed since) and the dialogs.
#[derive(Debug)]
pub struct ConsoleState {
    pub selection: DeviceSelectionState,
    pub connection: ConnectionSettings,
    pub default_connection: ConnectionSettings,
    pub active_profile: Option<String>,
    pub modal: ModalState,
    pub scale_mode: ScaleMode,
}

/// The labels of a device list, in order.
pub fn device_labels(devices: &Vec<DeviceOption>) -> (r: Vec<String>)
    ensures
        r@.len() == devices@.len(),
        forall|i: int| 0 <= i < r@.len() ==> #[trigger] r@[i] == devices@[i].label,
{
    let mut r: Vec<String> = Vec::new();
    let mut i: usize = 0;
    while i < devices.len()
        invariant
            i <= devices@.len(),
            r@.len() == i,
            forall|k: int| 0 <= k < i ==> #[trigger] r@[k] == devices@[k].label,
        decreases devices@.len() - i,
    {
        r.push(devices[i].label.clone());
        i = i + 1;
    }
    r
}

/// The label shown for a selected id: the label of the first device with that
/// id, or an empty label when none carries it; nothing when none is selected.
pub fn selected_label(devices: &Vec<DeviceOption>, selected: &Option<String>) -> (r: Option<String>)
    ensures
        selected is None ==> r is None,
        selected matches Some(id) ==> (r matches Some(label) && (if has_id(devices@, id@) {
            exists|i: int| first_with_id(devices@, id@, i) && label == devices@[i].label
        } else {
            label@.len() == 0
        })),
{
    match selected {
        Some(id) => match find_by_id(devices, id) {
            Some(i) => Some(devices[i].label.clone()),
            None => Some(String::new()),
        },
        None => None,
    }
}

impl ConsoleState {
    /// A fresh page: nothing selected, the defaults as the parameters.
    pub fn new(defaults: ConnectionSettings) -> (r: Self)
        ensures
            r.selection.video_devices@.len() == 0,
            r.selection.control_devices@.len() == 0,
            r.selection.selected_video_id is None,
            r.selection.selected_control_id is None,
            r.selection.video_status is NotSelected,
            r.selection.control_status is NotSelected,
            r.connection == defaults,
            r.default_connection == defaults,
            r.active_profile is None,
            r.modal.open is None,
            !r.modal.confirm_overwrite,
            r.scale_mode == ScaleMode::FitWindow,
    {
        ConsoleState {
            selection: DeviceSelectionState::default(),
            connection: defaults,
            default_connection: defaults,
            active_profile: None,
            modal: ModalState::default(),
            scale_mode: ScaleMode::FitWindow,
        }
    }

    /// Restores the last manual connection: its parameters, and its devices
    /// selected by id and marked for checking (the lists are not known yet).
    pub fn prefill_last_manual(&mut self, snapshot: ManualSnapshot)
        ensures
            final(self).connection == snapshot.connection,
            snapshot.video_device matches Some(d) ==> (final(self).selection.selected_video_id
                == Some(d.id) && final(self).selection.video_status is Checking),
            snapshot.video_device is None ==> (final(self).selection.selected_video_id
                == old(self).selection.selected_video_id && final(self).selection.video_status
                == old(self).selection.video_status),
            snapshot.control_device matches Some(d) ==> (final(self).selection.selected_control_id
                == Some(d.id) && final(self).selection.control_status is Checking),
            snapshot.control_device is None ==> (final(self).selection.selected_control_id
                == old(self).selection.selected_control_id
                && final(self).selection.control_status == old(self).selection.control_status),
            final(self).selection.video_devices == old(self).selection.video_devices,
            final(self).selection.control_devices == old(self).selection.control_devices,
            final(self).default_connection == old(self).default_connection,
            final(self).active_profile == old(self).active_profile,
            final(self).modal == old(self).modal,
            final(self).scale_mode == old(self).scale_mode,
    {
        self.connection = snapshot.connection;
        if let Some(device) = snapshot.video_device {
            self.selection.selected_video_id = Some(device.id);
            self.selection.video_status = VideoProbeStatus::Checking;
        }
        if let Some(device) = snapshot.control_device {
            self.selection.selected_control_id = Some(device.id);
            self.selection.control_status = ControlProbeStatus::Checking;
        }
    }

    /// Opens a dialog. The settings dialog shows the defaults and the scale
    /// mode, the connection dialog the parameters of the next connection; the
    /// profile dialog starts without a pending overwrite.
    pub fn open_modal(&mut self, kind: ModalKind)
        ensures
            final(self).modal.open == Some(kind),
            kind == ModalKind::Settings ==> {
                &&& final(self).modal.baud_rate == old(self).default_connection.baud_rate
                &&& final(self).modal.preview_fps == old(self).default_connection.preview_fps
                &&& final(self).modal.auto_baud == old(self).default_connection.auto_baud
                &&& final(self).modal.mouse_mode == old(self).default_connection.mouse_mode
                &&& final(self).modal.relative_sensitivity_milli
                    == old(self).default_connection.relative_sensitivity_milli
                &&& final(self).modal.baud_text@ == decimal_digits(
                    old(self).default_connection.baud_rate as nat,
                )
                &&& final(self).modal.fps_text@ == decimal_digits(
                    old(self).default_connection.preview_fps as nat,
                )
                &&& final(self).modal.sensitivity_text@ == milli_text(
                    old(self).default_connection.relative_sensitivity_milli as nat,
                )
                &&& final(self).modal.scale_mode == old(self).scale_mode
            },
            kind == ModalKind::Connection ==> {
                &&& final(self).modal.baud_rate == old(self).connection.baud_rate
                &&& final(self).modal.preview_fps == old(self).connection.preview_fps
                &&& final(self).modal.auto_baud == old(self).connection.auto_baud
                &&& final(self).modal.mouse_mode == old(self).connection.mouse_mode
                &&& final(self).modal.relative_sensitivity_milli
                    == old(self).connection.relative_sensitivity_milli
                &&& final(self).modal.baud_text@ == decimal_digits(
                    old(self).connection.baud_rate as nat,
                )
                &&& final(self).modal.fps_text@ == decimal_digits(
                    old(self).connection.preview_fps as nat,
                )
                &&& final(self).modal.sensitivity_text@ == milli_text(
                    old(self).connection.relative_sensitivity_milli as nat,
                )
                &&& final(self).modal.scale_mode == old(self).modal.scale_mode
            },
            (kind == ModalKind::SaveProfile || kind == ModalKind::About) ==> {
                &&& final(self).modal.baud_rate == old(self).modal.baud_rate
                &&& final(self).modal.preview_fps == old(self).modal.preview_fps
                &&& final(self).modal.auto_baud == old(self).modal.auto_baud
                &&& final(self).modal.mouse_mode == old(self).modal.mouse_mode
                &&& final(self).modal.relative_sensitivity_milli
                    == old(self).modal.relative_sensitivity_milli
                &&& final(self).modal.baud_text@ == old(self).modal.baud_text@
                &&& final(self).modal.fps_text@ == old(self).modal.fps_text@
                &&& final(self).modal.sensitivity_text@ == old(self).modal.sensitivity_text@
                &&& final(self).modal.scale_mode == old(self).modal.scale_mode
            },
            final(self).modal.confirm_overwrite == (kind != ModalKind::SaveProfile
                && old(self).modal.confirm_overwrite),
            final(self).modal.save_name@ == old(self).modal.save_name@,
            final(self).connection == old(self).connection,
            final(self).default_connection == old(self).default_connection,
            final(self).active_profile == old(self).active_profile,
            final(self).scale_mode == old(self).scale_mode,
    {
        if kind == ModalKind::Settings {
            let c = self.default_connection;
            self.show_parameters(c);
            self.modal.scale_mode = self.scale_mode;
        }
        if kind == ModalKind::Connection {
            let c = self.connection;
            self.show_parameters(c);
        }
        if kind == ModalKind::SaveProfile {
            self.modal.confirm_overwrite = false;
        }
        self.modal.open = Some(kind);
    }

    fn show_parameters(&mut self, c: ConnectionSettings)
        ensures
            final(self).modal.baud_rate == c.baud_rate,
            final(self).modal.preview_fps == c.preview_fps,
            final(self).modal.auto_baud == c.auto_baud,
            final(self).modal.mouse_mode == c.mouse_mode,
            final(self).modal.relative_sensitivity_milli == c.relative_sensitivity_milli,
            final(self).modal.baud_text@ == decimal_digits(c.baud_rate as nat),
            final(self).modal.fps_text@ == decimal_digits(c.preview_fps as nat),
            final(self).modal.sensitivity_text@ == milli_text(c.relative_sensitivity_milli as nat),
            final(self).modal.open == old(self).modal.open,
            final(self).modal.confirm_overwrite == old(self).modal.confirm_overwrite,
            final(self).modal.save_name@ == old(self).modal.save_name@,
            final(self).modal.scale_mode == old(self).modal.scale_mode,
            final(self).connection == old(self).connection,
            final(self).default_connection == old(self).default_connection,
            final(self).active_profile == old(self).active_profile,
            final(self).scale_mode == old(self).scale_mode,
    {
        self.modal.baud_rate = c.baud_rate;
        self.modal.preview_fps = c.preview_fps;
        self.modal.auto_baud = c.auto_baud;
        self.modal.mouse_mode = c.mouse_mode;
        self.modal.relative_sensitivity_milli = c.relative_sensitivity_milli;
        self.modal.baud_text = decimal_string(c.baud_rate as u64);
        self.modal.fps_text = decimal_string(c.preview_fps);
        self.modal.sensitivity_text = milli_string(c.relative_sensitivity_milli);
    }

    /// The settings dialog edits the defaults; any other state edits the
    /// parameters of the next connection.
    pub open spec fn edits_defaults(&self) -> bool {
        self.modal.open == Some(ModalKind::Settings)
    }

    /// Applies a dialog action. Parameter edits go to the defaults while the
    /// settings dialog is open, and otherwise to the next connection, which
    /// then no longer follows a profile. Typed numbers are parsed after
    /// trimming and clamped (baud rate 1200..=115200, frame rate 1..=60).
    pub fn apply_modal_action(&mut self, action: ModalAction) -> (r: ModalEffect)
        ensures
            r == (if action is Save {
                ModalEffect::SaveRequested
            } else {
                ModalEffect::Nothing
            }),
            ({
                let target = if old(self).edits_defaults() {
                    old(self).default_connection
                } else {
                    old(self).connection
                };
                match edited_connection(action, target) {
                    Some(c) => if old(self).edits_defaults() {
                        &&& final(self).default_connection == c
                        &&& final(self).connection == old(self).connection
                        &&& final(self).active_profile == old(self).active_profile
                    } else {
                        &&& final(self).connection == c
                        &&& final(self).default_connection == old(self).default_connection
                        &&& final(self).active_profile is None
                    },
                    None => if action is RestoreDefaults {
                        &&& final(self).connection == old(self).default_connection
                        &&& final(self).default_connection == old(self).default_connection
                        &&& final(self).active_profile is None
                    } else {
                        &&& final(self).connection == old(self).connection
                        &&& final(self).default_connection == old(self).default_connection
                        &&& final(self).active_profile == old(self).active_profile
                    },
                }
            }),
            final(self).modal.baud_text@ == baud_text_after(
                action,
                old(self).modal.baud_text@,
                old(self).default_connection,
            ),
            final(self).modal.fps_text@ == fps_text_after(
                action,
                old(self).modal.fps_text@,
                old(self).default_connection,
            ),
            final(self).modal.sensitivity_text@ == sensitivity_text_after(
                action,
                old(self).modal.sensitivity_text@,
                old(self).default_connection,
            ),
            final(self).modal.open == (if action is Close {
                None
            } else {
                old(self).modal.open
            }),
            final(self).modal.save_name@ == (match action {
                ModalAction::SaveNameChanged(name) => name@,
                _ => old(self).modal.save_name@,
            }),
            final(self).modal.confirm_overwrite == (!(action is CancelOverwrite)
                && old(self).modal.confirm_overwrite),
            final(self).scale_mode == (match action {
                ModalAction::SetScaleMode(mode) => mode,
                _ => old(self).scale_mode,
            }),
            final(self).modal.baud_rate == old(self).modal.baud_rate,
            final(self).modal.preview_fps == old(self).modal.preview_fps,
            final(self).modal.auto_baud == old(self).modal.auto_baud,
            final(self).modal.mouse_mode == old(self).modal.mouse_mode,
            final(self).modal.relative_sensitivity_milli
                == old(self).modal.relative_sensitivity_milli,
            final(self).modal.scale_mode == old(self).modal.scale_mode,
            final(self).selection == old(self).selection,
    {
        match action {
            ModalAction::Close => {
                self.modal.open = None;
            },
            ModalAction::SaveNameChanged(name) => {
                self.modal.save_name = name;
            },
            ModalAction::Save => {
                return ModalEffect::SaveRequested;
            },
            ModalAction::CancelOverwrite => {
                self.modal.confirm_overwrite = false;
            },
            ModalAction::RestoreDefaults => {
                self.connection = self.default_connection;
                self.active_profile = None;
                self.modal.baud_text = decimal_string(self.connection.baud_rate as u64);
                self.modal.fps_text = decimal_string(self.connection.preview_fps);
                self.modal.sensitivity_text = milli_string(
                    self.connection.relative_sensitivity_milli,
                );
            },
            ModalAction::SetBaudRate(baud) => {
                let c = ConnectionSettings { baud_rate: baud, ..self.edit_target() };
                self.route_edit(c);
                self.modal.baud_text = decimal_string(baud as u64);
            },
            ModalAction::SetPreviewFps(fps) => {
                let c = ConnectionSettings { preview_fps: fps, ..self.edit_target() };
                self.route_edit(c);
                self.modal.fps_text = decimal_string(fps);
            },
            ModalAction::SetAutoBaud(enabled) => {
                let c = ConnectionSettings { auto_baud: enabled, ..self.edit_target() };
                self.route_edit(c);
            },
            ModalAction::SetMouseMode(mode) => {
                let c = ConnectionSettings { mouse_mode: mode, ..self.edit_target() };
                self.route_edit(c);
            },
            ModalAction::SetRelativeSensitivity(value) => {
                let c = ConnectionSettings { relative_sensitivity_milli: value, ..self.edit_target() };
                self.route_edit(c);
                self.modal.sensitivity_text = milli_string(value);
            },
            ModalAction::BaudRateTextChanged(text) => {
                if let Some(v) = parse_unsigned(trim(text.as_str()), 0xffff_ffff) {
                    let baud = if v < MIN_TYPED_BAUD as u64 {
                        MIN_TYPED_BAUD
                    } else if v > MAX_TYPED_BAUD as u64 {
                        MAX_TYPED_BAUD
                    } else {
                        v as u32
                    };
                    let c = ConnectionSettings { baud_rate: baud, ..self.edit_target() };
                    self.route_edit(c);
                }
                self.modal.baud_text = text;
            },
            ModalAction::PreviewFpsTextChanged(text) => {
                if let Some(v) = parse_unsigned(trim(text.as_str()), 0xffff_ffff_ffff_ffff) {
                    let fps = if v < MIN_TYPED_FPS {
                        MIN_TYPED_FPS
                    } else if v > MAX_TYPED_FPS {
                        MAX_TYPED_FPS
                    } else {
                        v
                    };
                    let c = ConnectionSettings { preview_fps: fps, ..self.edit_target() };
                    self.route_edit(c);
                }
                self.modal.fps_text = text;
            },
            ModalAction::RelativeSensitivityTextChanged(text, parsed) => {
                if let Some(value) = parsed {
                    let c = ConnectionSettings {
                        relative_sensitivity_milli: value,
                        ..self.edit_target()
                    };
                    self.route_edit(c);
                }
                self.modal.sensitivity_text = text;
            },
            ModalAction::SetScaleMode(mode) => {
                self.scale_mode = mode;
            },
            ModalAction::Noop => {},
        }
        ModalEffect::Nothing
    }

    /// The name a save would use: the typed name without surrounding white
    /// space, or nothing when that is empty.
    pub fn save_target(&self) -> (r: Option<String>)
        ensures
            r is None <==> trimmed(self.modal.save_name@).len() == 0,
            r matches Some(name) ==> name@ == trimmed(self.modal.save_name@),
    {
        let name = trim(self.modal.save_name.as_str());
        if name.unicode_len() == 0 {
            None
        } else {
            Some(String::from_str(name))
        }
    }

    /// A save was asked for under a name that `name_taken` says is in use or
    /// not. The first save over a taken name only asks for confirmation; the
    /// result says whether to write the profile now.
    pub fn save_pressed(&mut self, name_taken: bool) -> (write: bool)
        ensures
            (write, final(self).modal.confirm_overwrite) == save_outcome(
                old(self).modal.confirm_overwrite,
                name_taken,
            ),
            *final(self) == (ConsoleState {
                modal: ModalState {
                    confirm_overwrite: final(self).modal.confirm_overwrite,
                    ..old(self).modal
                },
                ..*old(self)
            }),
    {
        if name_taken && !self.modal.confirm_overwrite {
            self.modal.confirm_overwrite = true;
            false
        } else {
            true
        }
    }

    /// The profile was written: the dialog closes.
    pub fn profile_saved(&mut self)
        ensures
            *final(self) == (ConsoleState {
                modal: ModalState { open: None, confirm_overwrite: false, ..old(self).modal },
                ..*old(self)
            }),
    {
        self.modal.confirm_overwrite = false;
        self.modal.open = None;
    }

    /// The profile a save writes under `name`: the current selection and
    /// parameters.
    pub fn profile_to_save(&self, name: String) -> (r: Profile)
        ensures
            r.name == name,
            r.connection == self.connection,
            self.selection.selected_video_id is None ==> r.video_device is None,
            self.selection.selected_video_id matches Some(id) ==> (r.video_device matches Some(d)
                && d.id@ == id@ && d.label@ == remembered_label(
                self.selection.video_devices@,
                id@,
            )),
            self.selection.selected_control_id is None ==> r.control_device is None,
            self.selection.selected_control_id matches Some(id) ==> (r.control_device matches Some(
                d,
            ) && d.id@ == id@ && d.label@ == remembered_label(
                self.selection.control_devices@,
                id@,
            )),
    {
        build_profile(name, &self.selection, &self.connection)
    }

    /// The user picked a video device by its label. When a device carries the
    /// label, the first such device is selected and checked again, and the
    /// selection no longer follows a profile; the result says whether that
    /// happened (the preview then starts over).
    pub fn select_video(&mut self, label: &str) -> (selected: bool)
        ensures
            selected == has_label(old(self).selection.video_devices@, label@),
            selected ==> exists|i: int|
                first_with_label(old(self).selection.video_devices@, label@, i)
                    && final(self).selection.selected_video_id == Some(
                    old(self).selection.video_devices@[i].id,
                ),
            selected ==> final(self).selection.video_status is Checking,
            selected ==> final(self).active_profile is None,
            !selected ==> final(self).selection.selected_video_id
                == old(self).selection.selected_video_id,
            !selected ==> final(self).selection.video_status == old(self).selection.video_status,
            !selected ==> final(self).active_profile == old(self).active_profile,
            final(self).selection.video_devices == old(self).selection.video_devices,
            final(self).selection.control_devices == old(self).selection.control_devices,
            final(self).selection.selected_control_id == old(self).selection.selected_control_id,
            final(self).selection.control_status == old(self).selection.control_status,
            final(self).connection == old(self).connection,
            final(self).default_connection == old(self).default_connection,
            final(self).modal == old(self).modal,
            final(self).scale_mode == old(self).scale_mode,
    {
        let wanted = String::from_str(label);
        match find_by_label(&self.selection.video_devices, &wanted) {
            Some(i) => {
                let id = self.selection.video_devices[i].id.clone();
                self.selection.selected_video_id = Some(id);
                self.selection.video_status = VideoProbeStatus::Checking;
                self.active_profile = None;
                true
            },
            None => false,
        }
    }

    /// The id of the control device the user picked by its label: the first
    /// device carrying the label, if any. That device is probed next.
    pub fn control_for_label(&self, label: &str) -> (r: Option<String>)
        ensures
            r is Some == has_label(self.selection.control_devices@, label@),
            r matches Some(id) ==> exists|i: int|
                first_with_label(self.selection.control_devices@, label@, i) && id
                    == self.selection.control_devices@[i].id,
    {
        let wanted = String::from_str(label);
        match find_by_label(&self.selection.control_devices, &wanted) {
            Some(i) => Some(self.selection.control_devices[i].id.clone()),
            None => None,
        }
    }

    /// Records the control device picked by the user and the result of
    /// probing it at the current baud rate; the selection no longer follows a
    /// profile.
    pub fn record_control_selection(&mut self, id: String, status: ControlProbeStatus)
        ensures
            final(self).selection.selected_control_id == Some(id),
            final(self).selection.control_status == stamped_probe(
                old(self).connection.baud_rate,
                status,
            ),
            final(self).active_profile is None,
            final(self).selection.video_devices == old(self).selection.video_devices,
            final(self).selection.control_devices == old(self).selection.control_devices,
            final(self).selection.selected_video_id == old(self).selection.selected_video_id,
            final(self).selection.video_status == old(self).selection.video_status,
            final(self).connection == old(self).connection,
            final(self).default_connection == old(self).default_connection,
            final(self).modal == old(self).modal,
            final(self).scale_mode == old(self).scale_mode,
    {
        self.selection.selected_control_id = Some(id);
        let baud = self.connection.baud_rate;
        self.selection.record_control_probe(baud, status);
        self.active_profile = None;
    }

    /// Sets the baud rate of the next connection.
    pub fn set_baud_rate(&mut self, baud: u32)
        ensures
            *final(self) == (ConsoleState {
                connection: ConnectionSettings { baud_rate: baud, ..old(self).connection },
                active_profile: None,
                ..*old(self)
            }),
    {
        self.connection.baud_rate = baud;
        self.active_profile = None;
    }

    /// Turns automatic baud detection of the next connection on or off.
    pub fn set_auto_baud(&mut self, enabled: bool)
        ensures
            *final(self) == (ConsoleState {
                connection: ConnectionSettings { auto_baud: enabled, ..old(self).connection },
                active_profile: None,
                ..*old(self)
            }),
    {
        self.connection.auto_baud = enabled;
        self.active_profile = None;
    }

    /// Sets the preview frame rate of the next connection.
    pub fn set_preview_fps(&mut self, fps: u64)
        ensures
            *final(self) == (ConsoleState {
                connection: ConnectionSettings { preview_fps: fps, ..old(self).connection },
                active_profile: None,
                ..*old(self)
            }),
    {
        self.connection.preview_fps = fps;
        self.active_profile = None;
    }

    /// Sets the mouse mode of the next connection.
    pub fn set_mouse_mode(&mut self, mode: MouseMode)
        ensures
            *final(self) == (ConsoleState {
                connection: ConnectionSettings { mouse_mode: mode, ..old(self).connection },
                active_profile: None,
                ..*old(self)
            }),
    {
        self.connection.mouse_mode = mode;
        self.active_profile = None;
    }

    /// After the device lists were refreshed: what becomes of the preview
    /// (see [`crate::connect::refresh_preview`]).
    pub fn refreshed(&mut self) -> (r: PreviewRefreshAction)
        ensures
            r == refresh_action_for(
                old(self).selection.video_status,
                selected_video_present(old(self).selection),
            ),
            r is Reopen ==> final(self).selection.video_status is Checking,
            !(r is Reopen) ==> final(self).selection.video_status
                == old(self).selection.video_status,
            final(self).selection.video_devices == old(self).selection.video_devices,
            final(self).selection.control_devices == old(self).selection.control_devices,
            final(self).selection.selected_video_id == old(self).selection.selected_video_id,
            final(self).selection.selected_control_id == old(self).selection.selected_control_id,
            final(self).selection.control_status == old(self).selection.control_status,
            final(self).connection == old(self).connection,
            final(self).active_profile == old(self).active_profile,
            final(self).default_connection == old(self).default_connection,
            final(self).modal == old(self).modal,
            final(self).scale_mode == old(self).scale_mode,
    {
        refresh_preview(&mut self.selection)
    }

    /// Takes the outcome of detecting the devices again on a copy of the
    /// selection. On success the copy becomes the selection and the preview
    /// decision of [`Self::refreshed`] is taken on it; on failure nothing
    /// changes and the failure comes back, for the status line.
    pub fn refresh_detected(&mut self, detected: Result<DeviceSelectionState, ProbeError>) -> (r:
        Result<PreviewRefreshAction, ProbeError>)
        ensures
            match detected {
                Ok(sel) => r matches Ok(a) && a == refresh_action_for(
                    sel.video_status,
                    selected_video_present(sel),
                ) && final(self).selection.video_devices == sel.video_devices
                    && final(self).selection.control_devices == sel.control_devices
                    && final(self).selection.selected_video_id == sel.selected_video_id
                    && final(self).selection.selected_control_id == sel.selected_control_id
                    && final(self).selection.control_status == sel.control_status && (if a is Reopen {
                    final(self).selection.video_status is Checking
                } else {
                    final(self).selection.video_status == sel.video_status
                }),
                Err(e) => r == Err::<PreviewRefreshAction, ProbeError>(e) && *final(self) == *old(
                    self,
                ),
            },
            final(self).connection == old(self).connection,
            final(self).default_connection == old(self).default_connection,
            final(self).active_profile == old(self).active_profile,
            final(self).modal == old(self).modal,
            final(self).scale_mode == old(self).scale_mode,
    {
        match detected {
            Ok(selection) => {
                self.selection = selection;
                Ok(self.refreshed())
            },
            Err(e) => Err(e),
        }
    }

    /// The request for a connection: both devices must be selected.
    pub fn connect_request(&self) -> (r: Option<ConnectRequest>)
        ensures
            r is Some == (self.selection.selected_video_id is Some
                && self.selection.selected_control_id is Some),
            r matches Some(req) ==> {
                &&& Some(req.video_device_id) == self.selection.selected_video_id
                &&& Some(req.control_device_id) == self.selection.selected_control_id
                &&& req.baud_rate == self.connection.baud_rate
                &&& req.mouse_mode == self.connection.mouse_mode
                &&& req.preview_fps == self.connection.preview_fps
            },
    {
        let video = match &self.selection.selected_video_id {
            Some(id) => id.clone(),
            None => {
                return None;
            },
        };
        let control = match &self.selection.selected_control_id {
            Some(id) => id.clone(),
            None => {
                return None;
            },
        };
        Some(
            ConnectRequest {
                video_device_id: video,
                control_device_id: control,
                baud_rate: self.connection.baud_rate,
                mouse_mode: self.connection.mouse_mode,
                preview_fps: self.connection.preview_fps,
            },
        )
    }

    /// How a successful connection is remembered: as a recently used profile
    /// when the selection follows one, else as the last manual connection
    /// with the selected devices and the parameters.
    pub fn connect_record(&self) -> (r: ConnectRecord)
        ensures
            self.active_profile matches Some(name) ==> r == ConnectRecord::RecentProfile(name),
            self.active_profile is None ==> (r matches ConnectRecord::LastManual(s) && {
                &&& s.connection == self.connection
                &&& (self.selection.selected_video_id is None ==> s.video_device is None)
                &&& (self.selection.selected_video_id matches Some(id) ==> (s.video_device matches Some(
                    d,
                ) && d.id@ == id@ && d.label@ == remembered_label(
                    self.selection.video_devices@,
                    id@,
                )))
                &&& (self.selection.selected_control_id is None ==> s.control_device is None)
                &&& (self.selection.selected_control_id matches Some(id) ==> (
                s.control_device matches Some(d) && d.id@ == id@ && d.label@ == remembered_label(
                    self.selection.control_devices@,
                    id@,
                )))
            }),
    {
        match &self.active_profile {
            Some(name) => ConnectRecord::RecentProfile(name.clone()),
            None => {
                let video_id = match &self.selection.selected_video_id {
                    Some(id) => Some(id.as_str()),
                    None => None,
                };
                let control_id = match &self.selection.selected_control_id {
                    Some(id) => Some(id.as_str()),
                    None => None,
                };
                ConnectRecord::LastManual(
                    ManualSnapshot {
                        video_device: selected_device_ref(
                            self.selection.video_devices.as_slice(),
                            video_id,
                        ),
                        control_device: selected_device_ref(
                            self.selection.control_devices.as_slice(),
                            control_id,
                        ),
                        connection: self.connection,
                    },
                )
            },
        }
    }

    /// Loads a profile: its devices are selected where present, its
    /// parameters become those of the next connection, and the selection
    /// follows it. The result says which of its devices are missing.
    pub fn apply_profile(&mut self, profile: Profile) -> (r: MissingDevices)
        ensures
            r.video == side_missing(old(self).selection.video_devices@, profile.video_device),
            r.control == side_missing(old(self).selection.control_devices@, profile.control_device),
            id_view(final(self).selection.selected_video_id) == side_applied(
                old(self).selection.video_devices@,
                profile.video_device,
            ),
            id_view(final(self).selection.selected_control_id) == side_applied(
                old(self).selection.control_devices@,
                profile.control_device,
            ),
            final(self).connection == profile.connection,
            final(self).active_profile == Some(profile.name),
            final(self).default_connection == old(self).default_connection,
            (if side_applied(old(self).selection.video_devices@, profile.video_device) is Some {
                final(self).selection.video_status is Checking
            } else {
                final(self).selection.video_status is NotSelected
            }),
            (if side_applied(old(self).selection.control_devices@, profile.control_device) is Some {
                final(self).selection.control_status is Checking
            } else {
                final(self).selection.control_status is NotSelected
            }),
            final(self).selection.video_devices == old(self).selection.video_devices,
            final(self).selection.control_devices == old(self).selection.control_devices,
            final(self).modal == old(self).modal,
            final(self).scale_mode == old(self).scale_mode,
    {
        let missing = apply_profile_to_selection(&mut self.selection, &profile);
        self.connection = profile.connection;
        self.active_profile = Some(profile.name);
        missing
    }

    fn edit_target(&self) -> (r: ConnectionSettings)
        ensures
            r == (if self.edits_defaults() {
                self.default_connection
            } else {
                self.connection
            }),
    {
        if self.modal.open == Some(ModalKind::Settings) {
            self.default_connection
        } else {
            self.connection
        }
    }

    fn route_edit(&mut self, c: ConnectionSettings)
        ensures
            old(self).edits_defaults() ==> {
                &&& final(self).default_connection == c
                &&& final(self).connection == old(self).connection
                &&& final(self).active_profile == old(self).active_profile
            },
            !old(self).edits_defaults() ==> {
                &&& final(self).connection == c
                &&& final(self).default_connection == old(self).default_connection
                &&& final(self).active_profile is None
            },
            final(self).modal.open == old(self).modal.open,
            final(self).modal.save_name@ == old(self).modal.save_name@,
            final(self).modal.confirm_overwrite == old(self).modal.confirm_overwrite,
            final(self).modal.baud_text@ == old(self).modal.baud_text@,
            final(self).modal.fps_text@ == old(self).modal.fps_text@,
            final(self).modal.sensitivity_text@ == old(self).modal.sensitivity_text@,
            final(self).modal.baud_rate == old(self).modal.baud_rate,
            final(self).modal.preview_fps == old(self).modal.preview_fps,
            final(self).modal.auto_baud == old(self).modal.auto_baud,
            final(self).modal.mouse_mode == old(self).modal.mouse_mode,
            final(self).modal.relative_sensitivity_milli
                == old(self).modal.relative_sensitivity_milli,
            final(self).modal.scale_mode == old(self).modal.scale_mode,
            final(self).scale_mode == old(self).scale_mode,
            final(self).selection == old(self).selection,
    {
        if self.modal.open == Some(ModalKind::Settings) {
            self.default_connection = c;
        } else {
            self.connection = c;
            self.active_profile = None;
        }
    }
}

/// Saving over a taken name needs two saves: the first only asks for
/// confirmation, the second writes.
pub proof fn lemma_overwrite_needs_confirmation()
    ensures
        save_outcome(false, true) == (false, true),
        save_outcome(save_outcome(false, true).1, true).0,
{
}

/// A name that is free is written at the first save.
pub proof fn lemma_free_name_written(confirm_pending: bool)
    ensures
        save_outcome(confirm_pending, false).0,
{
}

/// Typing back the baud rate a dialog shows leaves the parameters as they
/// are, for any rate inside the accepted range.
pub proof fn lemma_shown_baud_reads_back(c: ConnectionSettings, text: String)
    requires
        text@ == decimal_digits(c.baud_rate as nat),
        MIN_TYPED_BAUD <= c.baud_rate <= MAX_TYPED_BAUD,
    ensures
        edited_connection(ModalAction::BaudRateTextChanged(text), c) == Some(c),
{
    lemma_decimal_untrimmed(c.baud_rate as nat);
    lemma_decimal_parses_back(c.baud_rate as nat, u32::MAX as nat);
}

/// Typing back the frame rate a dialog shows leaves the parameters as they
/// are, for any rate inside the accepted range.
pub proof fn lemma_shown_fps_reads_back(c: ConnectionSettings, text: String)
    requires
        text@ == decimal_digits(c.preview_fps as nat),
        MIN_TYPED_FPS <= c.preview_fps <= MAX_TYPED_FPS,
    ensures
        edited_connection(ModalAction::PreviewFpsTextChanged(text), c) == Some(c),
{
    lemma_decimal_untrimmed(c.preview_fps as nat);
    lemma_decimal_parses_back(c.preview_fps as nat, u64::MAX as nat);
}

} // verus!
