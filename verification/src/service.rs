//! Service management decisions: which init system a set of probe results
//! names, which files an installation writes and where, and which commands
//! each service action runs. The surrounding process performs the probes,
//! writes the files (creating missing parent directories) and spawns the
//! commands; everything it does is laid out here first as a plan of steps.

use vstd::prelude::*;
use vstd::string::*;
use crate::text::contains_seq;
use crate::text::str_contains;

verus! {

/// The label the daemon's launchd service is registered under.
pub open spec fn service_label() -> Seq<char> {
    "com.zeroclaw.daemon"@
}

/// Which init system manages services on a Linux host.
#[derive(Clone, Copy, Debug, PartialEq, Eq, Structural)]
pub enum InitSystem {
    Systemd,
    OpenRC,
    Unknown,
}

/// The operating system the process runs on.
#[derive(Clone, Copy, Debug, PartialEq, Eq, Structural)]
pub enum Platform {
    MacOs,
    Linux,
    Other,
}

/// The service subcommands the gateway understands.
#[derive(Clone, Copy, Debug, PartialEq, Eq, Structural)]
pub enum ServiceCommands {
    Install,
    Start,
    Stop,
    Status,
    Uninstall,
}

/// Service management is only offered on macOS and Linux.
#[derive(Clone, Copy, Debug, PartialEq, Eq, Structural)]
pub enum ServiceError {
    Unsupported,
}

/// One command to spawn: a program, its arguments, and whether a failure
/// is tolerated (logged and ignored) rather than surfaced.
pub struct CmdSpec {
    pub program: String,
    pub args: Vec<String>,
    pub best_effort: bool,
}

/// One step of a service plan, executed in order by the surrounding
/// process.
pub enum PlanStep {
    /// Spawn the command and, unless it is best-effort, fail on a
    /// non-zero exit.
    Run(CmdSpec),
    /// Write `contents` at `path`, creating missing parent directories.
    WriteFile { path: String, contents: String },
    /// Mark the file executable.
    MakeExecutable { path: String },
    /// Remove the file if it exists.
    RemoveFileIfExists { path: String },
    /// Spawn the command, capture its output and report it.
    CaptureStatus(CmdSpec),
}

/// What the planner needs to know about the host, gathered once by the
/// surrounding process.
pub struct ServiceContext {
    pub platform: Platform,
    pub init: InitSystem,
    /// The user's home directory.
    pub home: String,
    /// Path of the current executable.
    pub exe: String,
    /// Directory the daemon's log files live in.
    pub logs_dir: String,
    /// Whether `/etc/init.d` exists.
    pub etc_initd_exists: bool,
    /// Whether the process runs as root.
    pub is_root: bool,
}

/// Reads the three init-system probe results, in the order they are
/// consulted: systemd first, then the two OpenRC probes.
pub fn classify_init_system(systemctl_ok: bool, rc_status_ok: bool, openrc_bin_ok: bool) -> (r:
    InitSystem)
    ensures
        r == (if systemctl_ok {
            InitSystem::Systemd
        } else if rc_status_ok || openrc_bin_ok {
            InitSystem::OpenRC
        } else {
            InitSystem::Unknown
        }),
{
    if systemctl_ok {
        InitSystem::Systemd
    } else if rc_status_ok || openrc_bin_ok {
        InitSystem::OpenRC
    } else {
        InitSystem::Unknown
    }
}

/// What one character becomes in XML text.
pub open spec fn escape_char(c: char) -> Seq<char> {
    if c == '&' {
        "&amp;"@
    } else if c == '<' {
        "&lt;"@
    } else if c == '>' {
        "&gt;"@
    } else if c == '"' {
        "&quot;"@
    } else if c == '\'' {
        "&apos;"@
    } else {
        seq![c]
    }
}

/// The XML escaping of a whole string, character by character.
pub open spec fn xml_escape_spec(s: Seq<char>) -> Seq<char>
    decreases s.len(),
{
    if s.len() == 0 {
        Seq::empty()
    } else {
        xml_escape_spec(s.drop_last()) + escape_char(s.last())
    }
}

/// Escapes the five XML-reserved characters.
pub fn xml_escape(raw: &str) -> (r: String)
    ensures
        r@ == xml_escape_spec(raw@),
{
    let n = raw.unicode_len();
    let mut r = String::new();
    let mut i: usize = 0;
    proof {
        assert(r@ =~= xml_escape_spec(raw@.subrange(0, 0)));
    }
    while i < n
        invariant
            0 <= i <= n,
            n == raw@.len(),
            r@ == xml_escape_spec(raw@.subrange(0, i as int)),
        decreases n - i,
    {
        let c = raw.get_char(i);
        if c == '&' {
            r.append("&amp;");
        } else if c == '<' {
            r.append("&lt;");
        } else if c == '>' {
            r.append("&gt;");
        } else if c == '"' {
            r.append("&quot;");
        } else if c == '\'' {
            r.append("&apos;");
        } else {
            r.append(raw.substring_char(i, i + 1));
        }
        proof {
            assert(raw@.subrange(0, i + 1).drop_last() =~= raw@.subrange(0, i as int));
            assert(raw@.subrange(i as int, i + 1) =~= seq![raw@[i as int]]);
            assert(r@ =~= xml_escape_spec(raw@.subrange(0, i + 1)));
        }
        i = i + 1;
    }
    proof {
        assert(raw@.subrange(0, n as int) =~= raw@);
    }
    r
}

/// Where the launchd service file lives.
pub open spec fn macos_service_file_spec(home: Seq<char>) -> Seq<char> {
    home + "/Library/LaunchAgents/com.zeroclaw.daemon.plist"@
}

pub fn macos_service_file(home: &str) -> (r: String)
    ensures
        r@ == macos_service_file_spec(home@),
{
    let mut r = home.to_owned();
    r.append("/Library/LaunchAgents/com.zeroclaw.daemon.plist");
    r
}

/// Where the systemd user unit lives.
pub open spec fn linux_service_file_spec(home: Seq<char>) -> Seq<char> {
    home + "/.config/systemd/user/zeroclaw.service"@
}

pub fn linux_service_file(home: &str) -> (r: String)
    ensures
        r@ == linux_service_file_spec(home@),
{
    let mut r = home.to_owned();
    r.append("/.config/systemd/user/zeroclaw.service");
    r
}

/// Where the OpenRC init script lives: system-wide when `/etc/init.d`
/// exists and the process runs as root, else under the user's home.
pub open spec fn openrc_service_file_spec(home: Seq<char>, etc_initd_exists: bool, is_root: bool)
    -> Seq<char> {
    if etc_initd_exists && is_root {
        "/etc/init.d/zeroclaw"@
    } else {
        home + "/.local/init.d/zeroclaw"@
    }
}

pub fn openrc_service_file(home: &str, etc_initd_exists: bool, is_root: bool) -> (r: String)
    ensures
        r@ == openrc_service_file_spec(home@, etc_initd_exists, is_root),
{
    if etc_initd_exists && is_root {
        "/etc/init.d/zeroclaw".to_owned()
    } else {
        let mut r = home.to_owned();
        r.append("/.local/init.d/zeroclaw");
        r
    }
}

/// The systemd user unit pointing at the daemon executable.
pub open spec fn systemd_unit_spec(exe: Seq<char>) -> Seq<char> {
    "[Unit]\nDescription=ZeroClaw daemon\nAfter=network.target\n\n[Service]\nType=simple\nExecStart="@
        + exe
        + " daemon\nRestart=always\nRestartSec=3\n\n[Install]\nWantedBy=default.target\n"@
}

pub fn systemd_unit(exe: &str) -> (r: String)
    ensures
        r@ == systemd_unit_spec(exe@),
{
    let mut r =
        "[Unit]\nDescription=ZeroClaw daemon\nAfter=network.target\n\n[Service]\nType=simple\nExecStart=".to_owned();
    r.append(exe);
    r.append(" daemon\nRestart=always\nRestartSec=3\n\n[Install]\nWantedBy=default.target\n");
    r
}

/// The OpenRC init script pointing at the daemon executable.
pub open spec fn openrc_script_spec(exe: Seq<char>) -> Seq<char> {
    "#!/sbin/openrc-run\n\ndescription=\"ZeroClaw AI assistant daemon\"\ncommand=\""@ + exe
        + "\"\ncommand_args=\"daemon\"\ncommand_background=true\npidfile=\"/run/$RC_SVCNAME.pid\"\noutput_log=\"/var/log/zeroclaw/daemon.log\"\nerror_log=\"/var/log/zeroclaw/daemon.error.log\"\n\ndepend() {\n    need net\n    after firewall\n}\n\nstart_pre() {\n    checkpath --directory --owner root:root --mode 0755 /var/log/zeroclaw\n}\n"@
}

pub fn openrc_script(exe: &str) -> (r: String)
    ensures
        r@ == openrc_script_spec(exe@),
{
    let mut r =
        "#!/sbin/openrc-run\n\ndescription=\"ZeroClaw AI assistant daemon\"\ncommand=\"".to_owned();
    r.append(exe);
    r.append(
        "\"\ncommand_args=\"daemon\"\ncommand_background=true\npidfile=\"/run/$RC_SVCNAME.pid\"\noutput_log=\"/var/log/zeroclaw/daemon.log\"\nerror_log=\"/var/log/zeroclaw/daemon.error.log\"\n\ndepend() {\n    need net\n    after firewall\n}\n\nstart_pre() {\n    checkpath --directory --owner root:root --mode 0755 /var/log/zeroclaw\n}\n",
    );
    r
}

/// The launchd property list, with the executable and log paths XML
/// escaped. The escaped double quotes reproduce the file the gateway has
/// always written.
pub open spec fn launchd_plist_spec(exe: Seq<char>, stdout_log: Seq<char>, stderr_log: Seq<char>)
    -> Seq<char> {
    "<?xml version=\\\"1.0\\\" encoding=\\\"UTF-8\\\"?>\n<!DOCTYPE plist PUBLIC \\\"-//Apple//DTD PLIST 1.0//EN\\\" \\\"http://www.apple.com/DTDs/PropertyList-1.0.dtd\\\">\n<plist version=\\\"1.0\\\">\n<dict>\n  <key>Label</key>\n  <string>com.zeroclaw.daemon</string>\n  <key>ProgramArguments</key>\n  <array>\n    <string>"@
        + xml_escape_spec(exe)
        + "</string>\n    <string>daemon</string>\n  </array>\n  <key>RunAtLoad</key>\n  <true/>\n  <key>KeepAlive</key>\n  <true/>\n  <key>StandardOutPath</key>\n  <string>"@
        + xml_escape_spec(stdout_log)
        + "</string>\n  <key>StandardErrorPath</key>\n  <string>"@ + xml_escape_spec(stderr_log)
        + "</string>\n</dict>\n</plist>\n"@
}

pub fn launchd_plist(exe: &str, stdout_log: &str, stderr_log: &str) -> (r: String)
    ensures
        r@ == launchd_plist_spec(exe@, stdout_log@, stderr_log@),
{
    let mut r =
        "<?xml version=\\\"1.0\\\" encoding=\\\"UTF-8\\\"?>\n<!DOCTYPE plist PUBLIC \\\"-//Apple//DTD PLIST 1.0//EN\\\" \\\"http://www.apple.com/DTDs/PropertyList-1.0.dtd\\\">\n<plist version=\\\"1.0\\\">\n<dict>\n  <key>Label</key>\n  <string>com.zeroclaw.daemon</string>\n  <key>ProgramArguments</key>\n  <array>\n    <string>".to_owned();
    let e = xml_escape(exe);
    r.append(e.as_str());
    r.append(
        "</string>\n    <string>daemon</string>\n  </array>\n  <key>RunAtLoad</key>\n  <true/>\n  <key>KeepAlive</key>\n  <true/>\n  <key>StandardOutPath</key>\n  <string>",
    );
    let o = xml_escape(stdout_log);
    r.append(o.as_str());
    r.append("</string>\n  <key>StandardErrorPath</key>\n  <string>");
    let s = xml_escape(stderr_log);
    r.append(s.as_str());
    r.append("</string>\n</dict>\n</plist>\n");
    r
}

/// Whether captured `launchctl list` output names the daemon's service.
pub fn launchctl_lists_service(out: &str) -> (r: bool)
    ensures
        r == contains_seq(out@, service_label()),
{
    str_contains(out, "com.zeroclaw.daemon")
}

/// Whether one step runs exactly this command.
pub open spec fn step_run(s: PlanStep, prog: Seq<char>, args: Seq<Seq<char>>, best_effort: bool)
    -> bool {
    s matches PlanStep::Run(c) && c.program@ == prog && c.args.deep_view() == args
        && c.best_effort == best_effort
}

fn cmd1(program: &str, a0: &str, best_effort: bool) -> (c: CmdSpec)
    ensures
        c.program@ == program@,
        c.args.deep_view() == seq![a0@],
        c.best_effort == best_effort,
{
    let mut args: Vec<String> = Vec::new();
    args.push(a0.to_owned());
    proof {
        assert(args.deep_view() =~= seq![a0@]);
    }
    CmdSpec { program: program.to_owned(), args, best_effort }
}

fn cmd2(program: &str, a0: &str, a1: &str, best_effort: bool) -> (c: CmdSpec)
    ensures
        c.program@ == program@,
        c.args.deep_view() == seq![a0@, a1@],
        c.best_effort == best_effort,
{
    let mut args: Vec<String> = Vec::new();
    args.push(a0.to_owned());
    args.push(a1.to_owned());
    proof {
        assert(args.deep_view() =~= seq![a0@, a1@]);
    }
    CmdSpec { program: program.to_owned(), args, best_effort }
}

fn cmd3(program: &str, a0: &str, a1: &str, a2: &str, best_effort: bool) -> (c: CmdSpec)
    ensures
        c.program@ == program@,
        c.args.deep_view() == seq![a0@, a1@, a2@],
        c.best_effort == best_effort,
{
    let mut args: Vec<String> = Vec::new();
    args.push(a0.to_owned());
    args.push(a1.to_owned());
    args.push(a2.to_owned());
    proof {
        assert(args.deep_view() =~= seq![a0@, a1@, a2@]);
    }
    CmdSpec { program: program.to_owned(), args, best_effort }
}

fn cmd2_owned(program: &str, a0: &str, a1: String, best_effort: bool) -> (c: CmdSpec)
    ensures
        c.program@ == program@,
        c.args.deep_view() == seq![a0@, a1@],
        c.best_effort == best_effort,
{
    let ghost a1v = a1@;
    let mut args: Vec<String> = Vec::new();
    args.push(a0.to_owned());
    args.push(a1);
    proof {
        assert(args.deep_view() =~= seq![a0@, a1v]);
    }
    CmdSpec { program: program.to_owned(), args, best_effort }
}

fn cmd3_owned(program: &str, a0: &str, a1: &str, a2: String, best_effort: bool) -> (c: CmdSpec)
    ensures
        c.program@ == program@,
        c.args.deep_view() == seq![a0@, a1@, a2@],
        c.best_effort == best_effort,
{
    let ghost a2v = a2@;
    let mut args: Vec<String> = Vec::new();
    args.push(a0.to_owned());
    args.push(a1.to_owned());
    args.push(a2);
    proof {
        assert(args.deep_view() =~= seq![a0@, a1@, a2v]);
    }
    CmdSpec { program: program.to_owned(), args, best_effort }
}

/// The commands that start the service on each platform.
pub open spec fn start_steps_ok(
    v: Seq<PlanStep>,
    platform: Platform,
    init: InitSystem,
    home: Seq<char>,
) -> bool {
    match platform {
        Platform::MacOs => v.len() == 2 && step_run(
            v[0],
            "launchctl"@,
            seq!["load"@, "-w"@, macos_service_file_spec(home)],
            false,
        ) && step_run(v[1], "launchctl"@, seq!["start"@, service_label()], false),
        Platform::Linux => match init {
            InitSystem::Systemd => v.len() == 2 && step_run(
                v[0],
                "systemctl"@,
                seq!["--user"@, "daemon-reload"@],
                false,
            ) && step_run(v[1], "systemctl"@, seq!["--user"@, "start"@, "zeroclaw.service"@], false),
            InitSystem::OpenRC => v.len() == 1 && step_run(
                v[0],
                "rc-service"@,
                seq!["zeroclaw"@, "start"@],
                false,
            ),
            InitSystem::Unknown => v.len() == 2 && step_run(
                v[0],
                "systemctl"@,
                seq!["--user"@, "daemon-reload"@],
                true,
            ) && step_run(v[1], "systemctl"@, seq!["--user"@, "start"@, "zeroclaw.service"@], true),
        },
        Platform::Other => false,
    }
}

/// Plans the `start` action.
pub fn start_plan(platform: Platform, init: InitSystem, home: &str) -> (r: Result<
    Vec<PlanStep>,
    ServiceError,
>)
    ensures
        r is Ok <==> platform != Platform::Other,
        r matches Ok(v) ==> start_steps_ok(v@, platform, init, home@),
{
    match platform {
        Platform::MacOs => {
            let mut v: Vec<PlanStep> = Vec::new();
            v.push(
                PlanStep::Run(cmd3_owned("launchctl", "load", "-w", macos_service_file(home), false)),
            );
            v.push(PlanStep::Run(cmd2("launchctl", "start", "com.zeroclaw.daemon", false)));
            Ok(v)
        },
        Platform::Linux => match init {
            InitSystem::Systemd => {
                let mut v: Vec<PlanStep> = Vec::new();
                v.push(PlanStep::Run(cmd2("systemctl", "--user", "daemon-reload", false)));
                v.push(PlanStep::Run(cmd3("systemctl", "--user", "start", "zeroclaw.service", false)));
                Ok(v)
            },
            InitSystem::OpenRC => {
                let mut v: Vec<PlanStep> = Vec::new();
                v.push(PlanStep::Run(cmd2("rc-service", "zeroclaw", "start", false)));
                Ok(v)
            },
            InitSystem::Unknown => {
                let mut v: Vec<PlanStep> = Vec::new();
                v.push(PlanStep::Run(cmd2("systemctl", "--user", "daemon-reload", true)));
                v.push(PlanStep::Run(cmd3("systemctl", "--user", "start", "zeroclaw.service", true)));
                Ok(v)
            },
        },
        Platform::Other => Err(ServiceError::Unsupported),
    }
}

/// The commands that stop the service on each platform; on macOS and under
/// an unrecognized init system they are best-effort, as they have always
/// been.
pub open spec fn stop_steps_ok(
    v: Seq<PlanStep>,
    platform: Platform,
    init: InitSystem,
    home: Seq<char>,
) -> bool {
    match platform {
        Platform::MacOs => v.len() == 2 && step_run(
            v[0],
            "launchctl"@,
            seq!["stop"@, service_label()],
            true,
        ) && step_run(v[1], "launchctl"@, seq!["unload"@, "-w"@, macos_service_file_spec(home)], true),
        Platform::Linux => match init {
            InitSystem::Systemd => v.len() == 1 && step_run(
                v[0],
                "systemctl"@,
                seq!["--user"@, "stop"@, "zeroclaw.service"@],
                true,
            ),
            InitSystem::OpenRC => v.len() == 1 && step_run(
                v[0],
                "rc-service"@,
                seq!["zeroclaw"@, "stop"@],
                false,
            ),
            InitSystem::Unknown => v.len() == 1 && step_run(
                v[0],
                "systemctl"@,
                seq!["--user"@, "stop"@, "zeroclaw.service"@],
                true,
            ),
        },
        Platform::Other => false,
    }
}

/// Plans the `stop` action.
pub fn stop_plan(platform: Platform, init: InitSystem, home: &str) -> (r: Result<
    Vec<PlanStep>,
    ServiceError,
>)
    ensures
        r is Ok <==> platform != Platform::Other,
        r matches Ok(v) ==> stop_steps_ok(v@, platform, init, home@),
{
    match platform {
        Platform::MacOs => {
            let mut v: Vec<PlanStep> = Vec::new();
            v.push(PlanStep::Run(cmd2("launchctl", "stop", "com.zeroclaw.daemon", true)));
            v.push(
                PlanStep::Run(cmd3_owned("launchctl", "unload", "-w", macos_service_file(home), true)),
            );
            Ok(v)
        },
        Platform::Linux => match init {
            InitSystem::OpenRC => {
                let mut v: Vec<PlanStep> = Vec::new();
                v.push(PlanStep::Run(cmd2("rc-service", "zeroclaw", "stop", false)));
                Ok(v)
            },
            _ => {
                let mut v: Vec<PlanStep> = Vec::new();
                v.push(PlanStep::Run(cmd3("systemctl", "--user", "stop", "zeroclaw.service", true)));
                Ok(v)
            },
        },
        Platform::Other => Err(ServiceError::Unsupported),
    }
}

/// The probe whose captured output reports the service's state.
pub open spec fn status_steps_ok(v: Seq<PlanStep>, platform: Platform, init: InitSystem) -> bool {
    match platform {
        Platform::MacOs => v.len() == 1 && (v[0] matches PlanStep::CaptureStatus(c) && c.program@
            == "launchctl"@ && c.args.deep_view() == seq!["list"@] && !c.best_effort),
        Platform::Linux => match init {
            InitSystem::OpenRC => v.len() == 1 && (v[0] matches PlanStep::CaptureStatus(c)
                && c.program@ == "rc-service"@ && c.args.deep_view() == seq!["zeroclaw"@, "status"@]
                && c.best_effort),
            _ => v.len() == 1 && (v[0] matches PlanStep::CaptureStatus(c) && c.program@
                == "systemctl"@ && c.args.deep_view() == seq![
                "--user"@,
                "is-active"@,
                "zeroclaw.service"@,
            ] && c.best_effort),
        },
        Platform::Other => false,
    }
}

/// Plans the `status` probe.
pub fn status_plan(platform: Platform, init: InitSystem) -> (r: Result<
    Vec<PlanStep>,
    ServiceError,
>)
    ensures
        r is Ok <==> platform != Platform::Other,
        r matches Ok(v) ==> status_steps_ok(v@, platform, init),
{
    match platform {
        Platform::MacOs => {
            let mut v: Vec<PlanStep> = Vec::new();
            v.push(PlanStep::CaptureStatus(cmd1("launchctl", "list", false)));
            Ok(v)
        },
        Platform::Linux => match init {
            InitSystem::OpenRC => {
                let mut v: Vec<PlanStep> = Vec::new();
                v.push(PlanStep::CaptureStatus(cmd2("rc-service", "zeroclaw", "status", true)));
                Ok(v)
            },
            _ => {
                let mut v: Vec<PlanStep> = Vec::new();
                v.push(
                    PlanStep::CaptureStatus(
                        cmd3("systemctl", "--user", "is-active", "zeroclaw.service", true),
                    ),
                );
                Ok(v)
            },
        },
        Platform::Other => Err(ServiceError::Unsupported),
    }
}

/// The files an installation writes and the commands it then runs.
pub open spec fn install_steps_ok(
    v: Seq<PlanStep>,
    platform: Platform,
    init: InitSystem,
    home: Seq<char>,
    exe: Seq<char>,
    logs_dir: Seq<char>,
    etc_initd_exists: bool,
    is_root: bool,
) -> bool {
    match platform {
        Platform::MacOs => v.len() == 1 && (v[0] matches PlanStep::WriteFile { path, contents }
            && path@ == macos_service_file_spec(home) && contents@ == launchd_plist_spec(
            exe,
            logs_dir + "/daemon.stdout.log"@,
            logs_dir + "/daemon.stderr.log"@,
        )),
        Platform::Linux => match init {
            InitSystem::OpenRC => v.len() == 3 && (v[0] matches PlanStep::WriteFile {
                path,
                contents,
            } && path@ == openrc_service_file_spec(home, etc_initd_exists, is_root) && contents@
                == openrc_script_spec(exe)) && (v[1] matches PlanStep::MakeExecutable { path }
                && path@ == openrc_service_file_spec(home, etc_initd_exists, is_root)) && step_run(
                v[2],
                "rc-update"@,
                seq!["add"@, "zeroclaw"@, "default"@],
                true,
            ),
            _ => v.len() == 3 && (v[0] matches PlanStep::WriteFile { path, contents } && path@
                == linux_service_file_spec(home) && contents@ == systemd_unit_spec(exe)) && step_run(
                v[1],
                "systemctl"@,
                seq!["--user"@, "daemon-reload"@],
                true,
            ) && step_run(
                v[2],
                "systemctl"@,
                seq!["--user"@, "enable"@, "zeroclaw.service"@],
                true,
            ),
        },
        Platform::Other => false,
    }
}

/// Plans the `install` action: writes the service file for the platform's
/// init system and registers it. An unrecognized Linux init system falls
/// back to systemd.
pub fn install(ctx: &ServiceContext) -> (r: Result<Vec<PlanStep>, ServiceError>)
    ensures
        r is Ok <==> ctx.platform != Platform::Other,
        r matches Ok(v) ==> install_steps_ok(
            v@,
            ctx.platform,
            ctx.init,
            ctx.home@,
            ctx.exe@,
            ctx.logs_dir@,
            ctx.etc_initd_exists,
            ctx.is_root,
        ),
{
    match ctx.platform {
        Platform::MacOs => {
            let mut stdout_log = ctx.logs_dir.clone();
            stdout_log.append("/daemon.stdout.log");
            let mut stderr_log = ctx.logs_dir.clone();
            stderr_log.append("/daemon.stderr.log");
            let contents = launchd_plist(
                ctx.exe.as_str(),
                stdout_log.as_str(),
                stderr_log.as_str(),
            );
            let mut v: Vec<PlanStep> = Vec::new();
            v.push(PlanStep::WriteFile { path: macos_service_file(ctx.home.as_str()), contents });
            Ok(v)
        },
        Platform::Linux => match ctx.init {
            InitSystem::OpenRC => {
                let path = openrc_service_file(
                    ctx.home.as_str(),
                    ctx.etc_initd_exists,
                    ctx.is_root,
                );
                let path2 = openrc_service_file(
                    ctx.home.as_str(),
                    ctx.etc_initd_exists,
                    ctx.is_root,
                );
                let mut v: Vec<PlanStep> = Vec::new();
                v.push(PlanStep::WriteFile { path, contents: openrc_script(ctx.exe.as_str()) });
                v.push(PlanStep::MakeExecutable { path: path2 });
                v.push(PlanStep::Run(cmd3("rc-update", "add", "zeroclaw", "default", true)));
                Ok(v)
            },
            _ => {
                let mut v: Vec<PlanStep> = Vec::new();
                v.push(
                    PlanStep::WriteFile {
                        path: linux_service_file(ctx.home.as_str()),
                        contents: systemd_unit(ctx.exe.as_str()),
                    },
                );
                v.push(PlanStep::Run(cmd2("systemctl", "--user", "daemon-reload", true)));
                v.push(PlanStep::Run(cmd3("systemctl", "--user", "enable", "zeroclaw.service", true)));
                Ok(v)
            },
        },
        Platform::Other => Err(ServiceError::Unsupported),
    }
}

/// Stopping first, then removing the service file and deregistering it.
pub open spec fn uninstall_steps_ok(
    v: Seq<PlanStep>,
    platform: Platform,
    init: InitSystem,
    home: Seq<char>,
    etc_initd_exists: bool,
    is_root: bool,
) -> bool {
    match platform {
        Platform::MacOs => v.len() == 3 && stop_steps_ok(v.take(2), platform, init, home) && (v[2]
            matches PlanStep::RemoveFileIfExists { path } && path@ == macos_service_file_spec(home)),
        Platform::Linux => match init {
            InitSystem::OpenRC => v.len() == 3 && stop_steps_ok(v.take(1), platform, init, home)
                && step_run(v[1], "rc-update"@, seq!["delete"@, "zeroclaw"@, "default"@], true) && (
            v[2] matches PlanStep::RemoveFileIfExists { path } && path@ == openrc_service_file_spec(
                home,
                etc_initd_exists,
                is_root,
            )),
            _ => v.len() == 3 && stop_steps_ok(v.take(1), platform, init, home) && (v[1]
                matches PlanStep::RemoveFileIfExists { path } && path@ == linux_service_file_spec(
                home,
            )) && step_run(v[2], "systemctl"@, seq!["--user"@, "daemon-reload"@], true),
        },
        Platform::Other => false,
    }
}

/// Plans the `uninstall` action.
pub fn uninstall_plan(ctx: &ServiceContext) -> (r: Result<Vec<PlanStep>, ServiceError>)
    ensures
        r is Ok <==> ctx.platform != Platform::Other,
        r matches Ok(v) ==> uninstall_steps_ok(
            v@,
            ctx.platform,
            ctx.init,
            ctx.home@,
            ctx.etc_initd_exists,
            ctx.is_root,
        ),
{
    let stopped = stop_plan(ctx.platform, ctx.init, ctx.home.as_str());
    let mut v = match stopped {
        Ok(v) => v,
        Err(e) => {
            return Err(e);
        },
    };
    let ghost stop_part = v@;
    match ctx.platform {
        Platform::MacOs => {
            v.push(PlanStep::RemoveFileIfExists { path: macos_service_file(ctx.home.as_str()) });
            proof {
                assert(v@.take(2) =~= stop_part);
            }
            Ok(v)
        },
        Platform::Linux => match ctx.init {
            InitSystem::OpenRC => {
                v.push(PlanStep::Run(cmd3("rc-update", "delete", "zeroclaw", "default", true)));
                v.push(
                    PlanStep::RemoveFileIfExists {
                        path: openrc_service_file(
                            ctx.home.as_str(),
                            ctx.etc_initd_exists,
                            ctx.is_root,
                        ),
                    },
                );
                proof {
                    assert(v@.take(1) =~= stop_part);
                }
                Ok(v)
            },
            _ => {
                v.push(
                    PlanStep::RemoveFileIfExists { path: linux_service_file(ctx.home.as_str()) },
                );
                v.push(PlanStep::Run(cmd2("systemctl", "--user", "daemon-reload", true)));
                proof {
                    assert(v@.take(1) =~= stop_part);
                }
                Ok(v)
            },
        },
        Platform::Other => Err(ServiceError::Unsupported),
    }
}

/// Dispatches one service subcommand to its plan. Service management is
/// only offered on macOS and Linux.
pub fn handle_command(command: &ServiceCommands, ctx: &ServiceContext) -> (r: Result<
    Vec<PlanStep>,
    ServiceError,
>)
    ensures
        r is Ok <==> ctx.platform != Platform::Other,
        *command == ServiceCommands::Install ==> (r matches Ok(v) ==> install_steps_ok(
            v@,
            ctx.platform,
            ctx.init,
            ctx.home@,
            ctx.exe@,
            ctx.logs_dir@,
            ctx.etc_initd_exists,
            ctx.is_root,
        )),
        *command == ServiceCommands::Start ==> (r matches Ok(v) ==> start_steps_ok(
            v@,
            ctx.platform,
            ctx.init,
            ctx.home@,
        )),
        *command == ServiceCommands::Stop ==> (r matches Ok(v) ==> stop_steps_ok(
            v@,
            ctx.platform,
            ctx.init,
            ctx.home@,
        )),
        *command == ServiceCommands::Status ==> (r matches Ok(v) ==> status_steps_ok(
            v@,
            ctx.platform,
            ctx.init,
        )),
        *command == ServiceCommands::Uninstall ==> (r matches Ok(v) ==> uninstall_steps_ok(
            v@,
            ctx.platform,
            ctx.init,
            ctx.home@,
            ctx.etc_initd_exists,
            ctx.is_root,
        )),
{
    match command {
        ServiceCommands::Install => install(ctx),
        ServiceCommands::Start => start_plan(ctx.platform, ctx.init, ctx.home.as_str()),
        ServiceCommands::Stop => stop_plan(ctx.platform, ctx.init, ctx.home.as_str()),
        ServiceCommands::Status => status_plan(ctx.platform, ctx.init),
        ServiceCommands::Uninstall => uninstall_plan(ctx),
    }
}

} // verus!
