//! Decisions of the headless service program: which video source and serial
//! port a session uses, the diagnostics log it writes, and the command line
//! and init-system files that install it as a service.

use vstd::prelude::*;
use crate::text::{concat_str, decimal_digits, decimal_string, trim, trimmed};

verus! {

/// Options of the headless program that its decisions read. Paths are given
/// as text.
#[derive(Debug, PartialEq, Eq)]
pub struct HeadlessOptions {
    pub assets_dir: Option<String>,
    pub camera_name: Option<String>,
    pub serial_path: Option<String>,
    pub serial_baud: Option<u32>,
    pub bind_address: String,
    pub tcp_port: u16,
    pub http_port: u16,
    pub frames_per_second: Option<u64>,
    pub token: Option<String>,
    pub vnc_password: Option<String>,
    pub dirty_rects: bool,
    pub dirty_rect_tile_size: Option<u32>,
    pub log_file: Option<String>,
    pub log_level: Option<String>,
    pub log_categories: Option<String>,
}

/// RFB port that a service's command line leaves out.
pub const SERVICE_IMPLIED_TCP_PORT: u16 = 5900;
/// Web port that a service's command line leaves out.
pub const SERVICE_IMPLIED_HTTP_PORT: u16 = 80;
/// Tile size of dirty-rectangle detection unless told otherwise.
pub const DEFAULT_DIRTY_TILE: u32 = 32;

/// The text as characters, if any.
pub open spec fn opt_view(s: Option<String>) -> Option<Seq<char>> {
    match s {
        Some(t) => Some(t@),
        None => None,
    }
}

/// A session starts at once only when a video source was named.
pub fn initial_video_source_requested(options: &HeadlessOptions) -> (r: bool)
    ensures
        r == (options.assets_dir is Some || options.camera_name is Some),
{
    options.assets_dir.is_some() || options.camera_name.is_some()
}

/// Where the frames of a session come from.
#[derive(Debug, PartialEq, Eq)]
pub enum VideoSourceChoice {
    /// Y4M files of a directory, with the dirty-rectangle tile size if
    /// dirty rectangles are on.
    Assets { dir: String, tile: Option<u32> },
    /// A camera, by id or display name.
    Camera(String),
}

/// Error text when no video source was named.
pub open spec fn no_source_text() -> Seq<char> {
    "未指定视频源，请在网页连接页选择设备，或使用 --camera/--assets 启动"@
}

/// The video source: assets take precedence over a camera; with neither the
/// session cannot start.
pub fn video_source_choice(options: &HeadlessOptions) -> (r: Result<VideoSourceChoice, String>)
    ensures
        match options.assets_dir {
            Some(dir) => r matches Ok(VideoSourceChoice::Assets { dir: d, tile }) && d@ == dir@
                && tile == (if options.dirty_rects {
                Some(
                    match options.dirty_rect_tile_size {
                        Some(t) => t,
                        None => DEFAULT_DIRTY_TILE,
                    },
                )
            } else {
                None
            }),
            None => match options.camera_name {
                Some(name) => r matches Ok(VideoSourceChoice::Camera(n)) && n@ == name@,
                None => r matches Err(e) && e@ == no_source_text(),
            },
        },
{
    match &options.assets_dir {
        Some(dir) => {
            let tile = if options.dirty_rects {
                Some(
                    match options.dirty_rect_tile_size {
                        Some(t) => t,
                        None => DEFAULT_DIRTY_TILE,
                    },
                )
            } else {
                None
            };
            Ok(VideoSourceChoice::Assets { dir: dir.clone(), tile })
        },
        None => match &options.camera_name {
            Some(name) => Ok(VideoSourceChoice::Camera(name.clone())),
            None => Err(
                String::from_str("未指定视频源，请在网页连接页选择设备，或使用 --camera/--assets 启动"),
            ),
        },
    }
}

/// A device selection made on the web page: text that is blank after
/// trimming counts as no choice for the video, and as "no serial port" for
/// the serial port.
#[derive(Debug, PartialEq, Eq)]
pub struct SessionSelection {
    pub video: Option<String>,
    pub serial: Option<String>,
}

/// The camera and asset directory of a session started from a selection: a
/// non-blank video choice names the camera and drops the assets.
pub fn selected_video_source(
    camera_name: Option<String>,
    assets_dir: Option<String>,
    selection: &SessionSelection,
) -> (r: (Option<String>, Option<String>))
    ensures
        (selection.video matches Some(v) && trimmed(v@).len() > 0) ==> (opt_view(r.0) == opt_view(
            selection.video,
        ) && r.1 is None),
        !(selection.video matches Some(v) && trimmed(v@).len() > 0) ==> (r.0 == camera_name
            && r.1 == assets_dir),
{
    match &selection.video {
        Some(video) => {
            if trim(video.as_str()).unicode_len() > 0 {
                return (Some(video.clone()), None);
            }
            (camera_name, assets_dir)
        },
        None => (camera_name, assets_dir),
    }
}

/// The serial port of a session started from a selection: a blank choice
/// means no port, any other choice names it, no choice keeps the option.
pub fn selected_serial_path(serial_path: Option<String>, selection: &SessionSelection) -> (r:
    Option<String>)
    ensures
        match selection.serial {
            Some(s) => if trimmed(s@).len() == 0 {
                r is None
            } else {
                opt_view(r) == Some(s@)
            },
            None => r == serial_path,
        },
{
    match &selection.serial {
        Some(serial) => if trim(serial.as_str()).unicode_len() == 0 {
            None
        } else {
            Some(serial.clone())
        },
        None => serial_path,
    }
}

/// The diagnostics log asked for: file, level and categories, each from the
/// options first, then from the environment, then the default.
#[derive(Debug, PartialEq, Eq)]
pub struct LogRequest {
    pub path: String,
    pub level: String,
    pub categories: String,
}

/// Level of the diagnostics log unless told otherwise.
pub open spec fn default_log_level() -> Seq<char> {
    "trace"@
}

/// Categories of the diagnostics log unless told otherwise.
pub open spec fn default_log_categories() -> Seq<char> {
    "input,pointer,queue,serial,lifecycle"@
}

/// The first of two optional texts, else `default`.
pub open spec fn first_or(a: Option<String>, b: Option<String>, default: Seq<char>) -> Seq<char> {
    match a {
        Some(x) => x@,
        None => match b {
            Some(y) => y@,
            None => default,
        },
    }
}

fn first_text(a: &Option<String>, b: &Option<String>, default: &str) -> (r: String)
    ensures
        r@ == first_or(*a, *b, default@),
{
    match a {
        Some(x) => x.clone(),
        None => match b {
            Some(y) => y.clone(),
            None => String::from_str(default),
        },
    }
}

/// The diagnostics log to write, if a file was named (see [`LogRequest`]).
pub fn log_request(
    options: &HeadlessOptions,
    env_file: Option<String>,
    env_level: Option<String>,
    env_categories: Option<String>,
) -> (r: Option<LogRequest>)
    ensures
        r is Some == (options.log_file is Some || env_file is Some),
        r matches Some(q) ==> {
            &&& q.path@ == first_or(options.log_file, env_file, Seq::empty())
            &&& q.level@ == first_or(options.log_level, env_level, default_log_level())
            &&& q.categories@ == first_or(
                options.log_categories,
                env_categories,
                default_log_categories(),
            )
        },
{
    let path = match &options.log_file {
        Some(p) => p.clone(),
        None => match env_file {
            Some(p) => p,
            None => {
                return None;
            },
        },
    };
    proof {
        reveal_strlit("trace");
        reveal_strlit("input,pointer,queue,serial,lifecycle");
    }
    let level = first_text(&options.log_level, &env_level, "trace");
    let categories = first_text(
        &options.log_categories,
        &env_categories,
        "input,pointer,queue,serial,lifecycle",
    );
    Some(LogRequest { path, level, categories })
}

/// `s` with each `'` written as `'\''`, so that it can stand between single
/// quotes in a shell command.
pub open spec fn shell_escaped(s: Seq<char>) -> Seq<char>
    decreases s.len(),
{
    if s.len() == 0 {
        s
    } else {
        shell_escaped(s.drop_last()) + if s.last() == '\'' {
            "'\\''"@
        } else {
            seq![s.last()]
        }
    }
}

/// `s` escaped for single quotes (see [`shell_escaped`]).
pub fn shell_escape(s: &str) -> (r: String)
    ensures
        r@ == shell_escaped(s@),
{
    proof {
        reveal_strlit("'\\''");
    }
    let n = s.unicode_len();
    let mut r = String::new();
    let mut i: usize = 0;
    while i < n
        invariant
            n == s@.len(),
            i <= n,
            r@ == shell_escaped(s@.take(i as int)),
        decreases n - i,
    {
        let c = s.get_char(i);
        assert(s@.take(i + 1).drop_last() =~= s@.take(i as int));
        if c == '\'' {
            r.append("'\\''");
        } else {
            let one = s.substring_char(i, i + 1);
            assert(one@ =~= seq![c]);
            r.append(one);
        }
        i = i + 1;
    }
    assert(s@.take(n as int) =~= s@);
    r
}

/// `flag '<value>'`.
pub open spec fn quoted_arg(flag: Seq<char>, value: Seq<char>) -> Seq<char> {
    flag + " '"@ + value + "'"@
}

fn quoted(flag: &str, value: &str) -> (r: String)
    ensures
        r@ == quoted_arg(flag@, value@),
{
    proof {
        reveal_strlit(" '");
        reveal_strlit("'");
    }
    let mut r = concat_str(flag, " '");
    r.append(value);
    r.append("'");
    r
}

/// `flag <n>`.
pub open spec fn number_arg(flag: Seq<char>, n: nat) -> Seq<char> {
    flag + " "@ + decimal_digits(n)
}

fn number(flag: &str, n: u64) -> (r: String)
    ensures
        r@ == number_arg(flag@, n as nat),
{
    proof {
        reveal_strlit(" ");
    }
    let mut r = concat_str(flag, " ");
    let digits = decimal_string(n);
    r.append(digits.as_str());
    r
}

/// One argument when `present`, else none.
pub open spec fn arg_if(present: bool, arg: Seq<char>) -> Seq<Seq<char>> {
    if present {
        seq![arg]
    } else {
        Seq::empty()
    }
}

/// The arguments a service is started with: the named sources and port, the
/// rate and credentials that were given, and the listening address and ports
/// unless they are `0.0.0.0`, 5900 and 80.
pub open spec fn service_args_of(o: HeadlessOptions) -> Seq<Seq<char>> {
    arg_if(
        o.camera_name is Some,
        quoted_arg("--camera"@, shell_escaped(o.camera_name.unwrap()@)),
    ) + arg_if(o.assets_dir is Some, quoted_arg("--assets"@, o.assets_dir.unwrap()@)) + arg_if(
        o.serial_path is Some,
        quoted_arg("--serial"@, o.serial_path.unwrap()@),
    ) + arg_if(o.bind_address@ != "0.0.0.0"@, quoted_arg("--bind"@, o.bind_address@)) + arg_if(
        o.tcp_port != SERVICE_IMPLIED_TCP_PORT,
        number_arg("--tcp"@, o.tcp_port as nat),
    ) + arg_if(o.http_port != SERVICE_IMPLIED_HTTP_PORT, number_arg("--http"@, o.http_port as nat))
        + arg_if(
        o.frames_per_second is Some,
        number_arg("--fps"@, o.frames_per_second.unwrap() as nat),
    ) + arg_if(o.token is Some, quoted_arg("--token"@, o.token.unwrap()@)) + arg_if(
        o.vnc_password is Some,
        quoted_arg("--vnc-password"@, o.vnc_password.unwrap()@),
    )
}

/// The installed service is told its ports: `--tcp <port>` when the RFB port
/// is not 5900 and `--http <port>` when the web port is not 80, each with
/// that port in decimal, and `--fps <n>` with a given frame rate.
pub proof fn lemma_service_ports(o: HeadlessOptions)
    ensures
        o.tcp_port != 5900 ==> service_args_of(o).contains("--tcp "@ + decimal_digits(o.tcp_port as nat)),
        o.http_port != 80 ==> service_args_of(o).contains(
            "--http "@ + decimal_digits(o.http_port as nat),
        ),
        o.frames_per_second matches Some(f) ==> service_args_of(o).contains(
            "--fps "@ + decimal_digits(f as nat),
        ),
{
    reveal_strlit("--tcp");
    reveal_strlit("--http");
    reveal_strlit("--fps");
    reveal_strlit("--tcp ");
    reveal_strlit("--http ");
    reveal_strlit("--fps ");
    reveal_strlit(" ");
    let a1 = arg_if(
        o.camera_name is Some,
        quoted_arg("--camera"@, shell_escaped(o.camera_name.unwrap()@)),
    );
    let a2 = arg_if(o.assets_dir is Some, quoted_arg("--assets"@, o.assets_dir.unwrap()@));
    let a3 = arg_if(o.serial_path is Some, quoted_arg("--serial"@, o.serial_path.unwrap()@));
    let a4 = arg_if(o.bind_address@ != "0.0.0.0"@, quoted_arg("--bind"@, o.bind_address@));
    let a5 = arg_if(o.tcp_port != SERVICE_IMPLIED_TCP_PORT, number_arg("--tcp"@, o.tcp_port as nat));
    let a6 = arg_if(
        o.http_port != SERVICE_IMPLIED_HTTP_PORT,
        number_arg("--http"@, o.http_port as nat),
    );
    let a7 = arg_if(
        o.frames_per_second is Some,
        number_arg("--fps"@, o.frames_per_second.unwrap() as nat),
    );
    let a8 = arg_if(o.token is Some, quoted_arg("--token"@, o.token.unwrap()@));
    let a9 = arg_if(o.vnc_password is Some, quoted_arg("--vnc-password"@, o.vnc_password.unwrap()@));
    let all = service_args_of(o);
    assert(all == a1 + a2 + a3 + a4 + a5 + a6 + a7 + a8 + a9);
    let p5 = a1 + a2 + a3 + a4;
    let p6 = p5 + a5;
    let p7 = p6 + a6;
    if o.tcp_port != 5900 {
        assert("--tcp"@ + " "@ + decimal_digits(o.tcp_port as nat) =~= "--tcp "@ + decimal_digits(
            o.tcp_port as nat,
        ));
        assert(all[p5.len() as int] == number_arg("--tcp"@, o.tcp_port as nat));
    }
    if o.http_port != 80 {
        assert("--http"@ + " "@ + decimal_digits(o.http_port as nat) =~= "--http "@ + decimal_digits(
            o.http_port as nat,
        ));
        assert(all[p6.len() as int] == number_arg("--http"@, o.http_port as nat));
    }
    if o.frames_per_second is Some {
        let f = o.frames_per_second.unwrap();
        assert("--fps"@ + " "@ + decimal_digits(f as nat) =~= "--fps "@ + decimal_digits(f as nat));
        assert(all[p7.len() as int] == number_arg("--fps"@, f as nat));
    }
}

fn push_if(args: &mut Vec<String>, arg: Option<String>)
    ensures
        final(args)@.map_values(|s: String| s@) == old(args)@.map_values(|s: String| s@) + arg_if(
            arg is Some,
            arg.unwrap()@,
        ),
{
    let ghost before = args@.map_values(|s: String| s@);
    match arg {
        Some(a) => {
            args.push(a);
            assert(args@.map_values(|s: String| s@) =~= before.push(a@));
        },
        None => {
            assert(args@.map_values(|s: String| s@) =~= before);
        },
    }
}

/// The arguments a service is started with (see [`service_args_of`]).
pub fn service_args(options: &HeadlessOptions) -> (r: Vec<String>)
    ensures
        r@.map_values(|s: String| s@) =~= service_args_of(*options),
{
    proof {
        reveal_strlit("0.0.0.0");
    }
    let mut args: Vec<String> = Vec::new();
    assert(args@.map_values(|s: String| s@) =~= Seq::<Seq<char>>::empty());
    let camera = match &options.camera_name {
        Some(c) => {
            let escaped = shell_escape(c.as_str());
            Some(quoted("--camera", escaped.as_str()))
        },
        None => None,
    };
    push_if(&mut args, camera);
    let assets = match &options.assets_dir {
        Some(a) => Some(quoted("--assets", a.as_str())),
        None => None,
    };
    push_if(&mut args, assets);
    let serial = match &options.serial_path {
        Some(s) => Some(quoted("--serial", s.as_str())),
        None => None,
    };
    push_if(&mut args, serial);
    let bind = if !crate::text::str_eq(options.bind_address.as_str(), "0.0.0.0") {
        Some(quoted("--bind", options.bind_address.as_str()))
    } else {
        None
    };
    push_if(&mut args, bind);
    let tcp = if options.tcp_port != SERVICE_IMPLIED_TCP_PORT {
        Some(number("--tcp", options.tcp_port as u64))
    } else {
        None
    };
    push_if(&mut args, tcp);
    let http = if options.http_port != SERVICE_IMPLIED_HTTP_PORT {
        Some(number("--http", options.http_port as u64))
    } else {
        None
    };
    push_if(&mut args, http);
    let fps = match options.frames_per_second {
        Some(f) => Some(number("--fps", f)),
        None => None,
    };
    push_if(&mut args, fps);
    let token = match &options.token {
        Some(t) => Some(quoted("--token", t.as_str())),
        None => None,
    };
    push_if(&mut args, token);
    let password = match &options.vnc_password {
        Some(p) => Some(quoted("--vnc-password", p.as_str())),
        None => None,
    };
    push_if(&mut args, password);
    args
}

/// The arguments joined by single spaces.
pub open spec fn joined(args: Seq<Seq<char>>) -> Seq<char>
    decreases args.len(),
{
    if args.len() == 0 {
        Seq::empty()
    } else if args.len() == 1 {
        args[0]
    } else {
        joined(args.drop_last()) + " "@ + args.last()
    }
}

/// The arguments joined by single spaces (see [`joined`]).
pub fn join_args(args: &Vec<String>) -> (r: String)
    ensures
        r@ == joined(args@.map_values(|s: String| s@)),
{
    proof {
        reveal_strlit(" ");
    }
    let ghost views = args@.map_values(|s: String| s@);
    let mut r = String::new();
    let mut i: usize = 0;
    while i < args.len()
        invariant
            i <= args@.len(),
            views == args@.map_values(|s: String| s@),
            r@ == joined(views.take(i as int)),
        decreases args@.len() - i,
    {
        assert(views.take(i + 1).drop_last() =~= views.take(i as int));
        if i > 0 {
            r.append(" ");
        }
        r.append(args[i].as_str());
        i = i + 1;
    }
    assert(views.take(args@.len() as int) =~= views);
    r
}

/// The command line of the service: the program, a space, the arguments.
pub open spec fn exec_line_of(exe: Seq<char>, args: Seq<Seq<char>>) -> Seq<char> {
    exe + " "@ + joined(args)
}

/// The command line of the service (see [`exec_line_of`]).
pub fn exec_line(exe: &str, args: &Vec<String>) -> (r: String)
    ensures
        r@ == exec_line_of(exe@, args@.map_values(|s: String| s@)),
{
    proof {
        reveal_strlit(" ");
    }
    let mut r = concat_str(exe, " ");
    let rest = join_args(args);
    r.append(rest.as_str());
    r
}

/// Service managers the program can install itself with.
#[derive(Clone, Copy, Debug, PartialEq, Eq, Structural)]
pub enum InitSystem {
    Systemd,
    OpenRc,
}

/// systemd when it runs, else OpenRC when it is installed, else none.
pub fn init_system(systemd_running: bool, openrc_installed: bool) -> (r: Option<InitSystem>)
    ensures
        r == (if systemd_running {
            Some(InitSystem::Systemd)
        } else if openrc_installed {
            Some(InitSystem::OpenRc)
        } else {
            None
        }),
{
    if systemd_running {
        Some(InitSystem::Systemd)
    } else if openrc_installed {
        Some(InitSystem::OpenRc)
    } else {
        None
    }
}

/// Error text when neither service manager is found.
pub open spec fn no_init_text() -> Seq<char> {
    "未检测到支持的 init 系统（需要 systemd 或 openrc）"@
}

/// Error text when neither service manager is found (see [`no_init_text`]).
pub fn no_init_message() -> (r: String)
    ensures
        r@ == no_init_text(),
{
    String::from_str("未检测到支持的 init 系统（需要 systemd 或 openrc）")
}

/// Path of the file that defines the service.
pub open spec fn service_file_path(system: InitSystem, name: Seq<char>) -> Seq<char> {
    match system {
        InitSystem::Systemd => "/etc/systemd/system/"@ + name + ".service"@,
        InitSystem::OpenRc => "/etc/init.d/"@ + name,
    }
}

/// Path of the file that defines the service (see [`service_file_path`]).
pub fn service_path(system: InitSystem, name: &str) -> (r: String)
    ensures
        r@ == service_file_path(system, name@),
{
    proof {
        reveal_strlit("/etc/systemd/system/");
        reveal_strlit(".service");
        reveal_strlit("/etc/init.d/");
    }
    match system {
        InitSystem::Systemd => {
            let mut r = concat_str("/etc/systemd/system/", name);
            r.append(".service");
            r
        },
        InitSystem::OpenRc => concat_str("/etc/init.d/", name),
    }
}

/// Text of the systemd unit before the command line.
pub open spec fn unit_head() -> Seq<char> {
    "[Unit]\nDescription=MyKvm Headless Service\nAfter=network.target\n\n[Service]\nType=simple\nExecStart="@
}

/// Text of the systemd unit after the command line.
pub open spec fn unit_tail() -> Seq<char> {
    "\nRestart=on-failure\nRestartSec=5\n\n[Install]\nWantedBy=multi-user.target\n"@
}

/// The systemd unit that starts `exec_line` and restarts it on failure.
pub fn systemd_unit(exec_line: &str) -> (r: String)
    ensures
        r@ == unit_head() + exec_line@ + unit_tail(),
{
    let mut r = concat_str(
        "[Unit]\nDescription=MyKvm Headless Service\nAfter=network.target\n\n[Service]\nType=simple\nExecStart=",
        exec_line,
    );
    r.append("\nRestart=on-failure\nRestartSec=5\n\n[Install]\nWantedBy=multi-user.target\n");
    r
}

/// Pieces of the OpenRC script around the program, its arguments and the
/// service name.
pub open spec fn rc_head() -> Seq<char> {
    "#!/sbin/openrc-run\n\ndescription=\"MyKvm Headless Service\"\ncommand=\""@
}

pub open spec fn rc_args() -> Seq<char> {
    "\"\ncommand_args=\""@
}

pub open spec fn rc_pid() -> Seq<char> {
    "\"\ncommand_background=\"yes\"\npidfile=\"/run/"@
}

pub open spec fn rc_tail() -> Seq<char> {
    ".pid\"\n\ndepend() {\n    need net\n}\n\nstart_pre() {\n    checkpath -d -m 0755 -o root /run\n}\n"@
}

/// The OpenRC script that runs `exe` with `args` in the background; the
/// arguments stand apart because OpenRC takes no spaces in the command.
pub fn openrc_script(exe: &str, args: &str, name: &str) -> (r: String)
    ensures
        r@ == rc_head() + exe@ + rc_args() + args@ + rc_pid() + name@ + rc_tail(),
{
    let mut r = concat_str(
        "#!/sbin/openrc-run\n\ndescription=\"MyKvm Headless Service\"\ncommand=\"",
        exe,
    );
    r.append("\"\ncommand_args=\"");
    r.append(args);
    r.append("\"\ncommand_background=\"yes\"\npidfile=\"/run/");
    r.append(name);
    r.append(
        ".pid\"\n\ndepend() {\n    need net\n}\n\nstart_pre() {\n    checkpath -d -m 0755 -o root /run\n}\n",
    );
    r
}

} // verus!
