use vstd::prelude::*;

use crate::model::{clone_opt_string, clone_string, TuiPrefs};
use crate::text::{parse_u16, parse_u16_spec};

verus! {

/// The TCP port on 127.0.0.1 where the daemon answers control calls.
pub const CONTROL_PORT: u16 = 12222;

/// The port of the daemon's proxy auto-configuration server.
pub const PAC_PORT: u16 = 12223;

/// The SOCKS5 port used when the preference does not parse.
pub const DEFAULT_SOCKS5_PORT: u16 = 9909;

/// The HTTP proxy port used when the preference does not parse.
pub const DEFAULT_HTTP_PORT: u16 = 9910;

/// How long a control call may take, in milliseconds.
pub const RPC_DEADLINE_MS: u64 = 3000;

/// How long connecting to the control port may take, in milliseconds.
pub const CONNECT_DEADLINE_MS: u64 = 50;

/// How long the daemon may take to become reachable, in seconds.
pub const START_DEADLINE_SECS: u64 = 30;

/// The pause after the daemon became reachable, in milliseconds.
pub const SETTLE_AFTER_START_MS: u64 = 500;

/// The pause before the first reachability probe, in milliseconds.
pub const FIRST_PROBE_DELAY_MS: u64 = 150;

/// The pause between reachability probes, in milliseconds.
pub const PROBE_INTERVAL_MS: u64 = 250;

/// How long the daemon may take to stop on request, in seconds.
pub const STOP_GRACE_SECS: u64 = 5;

/// The directory, under the user's cache directory, that holds the daemon's database.
pub const CACHE_DIR_NAME: &'static str = "geph5_tui";

/// The daemon's database file in the cache directory.
pub const DATABASE_FILE: &'static str = "database.db";

/// The file that the daemon's error output goes to when debug logging is on.
pub const DEBUG_LOG_FILE: &'static str = "gephgui.log";

/// Whether `code` is a two-letter country code that the country table knows.
pub uninterp spec fn known_alpha2(code: Seq<char>) -> bool;

/// Calls `isocountry::CountryCode::for_alpha2`, which looks `code` up in the
/// table of ISO 3166-1 two-letter codes, exactly as written (upper case). The
/// contract names the lookup's success `known_alpha2`; of a known code it states
/// only that it has two characters, as every entry of the table does.
#[verifier::external_body]
fn alpha2_known(code: &str) -> (r: bool)
    ensures
        r == known_alpha2(code@),
        r ==> code@.len() == 2,
{
    isocountry::CountryCode::for_alpha2(code).is_ok()
}

/// Whether `code` is a known two-letter country code.
pub fn is_known_alpha2(code: &str) -> (r: bool)
    ensures
        r == known_alpha2(code@),
{
    alpha2_known(code)
}

/// An IPv4 address by its four octets.
#[derive(PartialEq, Eq, Structural, Clone, Copy, Debug)]
pub struct Ipv4 {
    pub a: u8,
    pub b: u8,
    pub c: u8,
    pub d: u8,
}

/// What the daemon is started with, as plain values; the caller puts them
/// into the daemon's configuration, with the session metadata left empty.
#[derive(Clone, Debug)]
pub struct DaemonSettings {
    /// Whether traffic to China bypasses the tunnel.
    pub passthrough_china: bool,
    /// The login secret.
    pub secret: String,
    /// The address the proxies listen on.
    pub listen_ip: Ipv4,
    pub socks5_port: u16,
    pub http_proxy_port: u16,
    pub pac_port: u16,
    /// The exit region's code, or `None` for automatic choice.
    pub exit_country: Option<String>,
    pub allow_direct: bool,
}

/// The port that a preference text gives, or `default` when it does not parse.
pub open spec fn port_or(text: Seq<char>, default: u16) -> u16 {
    match parse_u16_spec(text) {
        Some(v) => v,
        None => default,
    }
}

/// The listen address: every interface, or the loopback only.
pub open spec fn listen_ip_for(listen_all: bool) -> Ipv4 {
    if listen_all { Ipv4 { a: 0, b: 0, c: 0, d: 0 } } else { Ipv4 { a: 127, b: 0, c: 0, d: 1 } }
}

/// `d` is what the daemon is started with under the preferences `p`.
pub open spec fn settings_for(p: TuiPrefs, d: DaemonSettings) -> bool {
    &&& !d.passthrough_china
    &&& d.secret == p.secret
    &&& d.listen_ip == listen_ip_for(p.listen_all)
    &&& d.socks5_port == port_or(p.socks_port@, DEFAULT_SOCKS5_PORT)
    &&& d.http_proxy_port == port_or(p.http_port@, DEFAULT_HTTP_PORT)
    &&& d.pac_port == PAC_PORT
    &&& d.exit_country == p.selected_country
    &&& d.allow_direct == p.allow_direct
}

/// The chosen exit, if any, is a known country code.
pub open spec fn exit_known(p: TuiPrefs) -> bool {
    match p.selected_country {
        Some(c) => known_alpha2(c@),
        None => true,
    }
}

/// What the daemon is started with under the preferences `prefs`.
pub fn running_settings(prefs: &TuiPrefs) -> (d: DaemonSettings)
    requires
        exit_known(*prefs),
    ensures
        settings_for(*prefs, d),
{
    let socks5_port = match parse_u16(prefs.socks_port.as_str()) {
        Some(v) => v,
        None => DEFAULT_SOCKS5_PORT,
    };
    let http_proxy_port = match parse_u16(prefs.http_port.as_str()) {
        Some(v) => v,
        None => DEFAULT_HTTP_PORT,
    };
    DaemonSettings {
        passthrough_china: false,
        secret: clone_string(&prefs.secret),
        listen_ip: if prefs.listen_all { Ipv4 { a: 0, b: 0, c: 0, d: 0 } } else { Ipv4 { a: 127, b: 0, c: 0, d: 1 } },
        socks5_port,
        http_proxy_port,
        pac_port: PAC_PORT,
        exit_country: clone_opt_string(&prefs.selected_country),
        allow_direct: prefs.allow_direct,
    }
}

/// What the daemon is started with, or `None` when the chosen exit is not a
/// known country code (where starting would fail).
pub fn checked_running_settings(prefs: &TuiPrefs) -> (r: Option<DaemonSettings>)
    ensures
        r is Some <==> exit_known(*prefs),
        r matches Some(d) ==> settings_for(*prefs, d),
{
    let known = match &prefs.selected_country {
        Some(c) => is_known_alpha2(c.as_str()),
        None => true,
    };
    if known {
        Some(running_settings(prefs))
    } else {
        None
    }
}

/// How the daemon's start went: reachable in time, not reachable within the
/// deadline, or exited first (with its error output when it could be read).
#[derive(Clone, Debug)]
pub enum StartRace {
    Reachable,
    TimedOut,
    Exited(Option<String>),
}

/// The message of a failed start.
pub open spec fn start_error(race: StartRace) -> Option<Seq<char>> {
    match race {
        StartRace::Reachable => None,
        StartRace::TimedOut => Some("daemon did not start in 30"@),
        StartRace::Exited(Some(err)) => Some("daemon exited before becoming reachable:\n"@ + err@),
        StartRace::Exited(None) => Some("daemon exited before becoming reachable"@),
    }
}

/// The result of a start: `Ok` when the daemon became reachable, else the error message.
pub fn start_result(race: StartRace) -> (r: Result<(), String>)
    ensures
        match r {
            Ok(()) => start_error(race) is None,
            Err(msg) => start_error(race) == Some(msg@),
        },
{
    match race {
        StartRace::Reachable => Ok(()),
        StartRace::TimedOut => Err(String::from_str("daemon did not start in 30")),
        StartRace::Exited(Some(err)) => Err(String::from_str("daemon exited before becoming reachable:\n").concat(err.as_str())),
        StartRace::Exited(None) => Err(String::from_str("daemon exited before becoming reachable")),
    }
}

/// Where the daemon's error output goes.
#[derive(PartialEq, Eq, Structural, Clone, Copy, Debug)]
pub enum StderrSink {
    /// Appended to the debug log file.
    LogFile,
    /// Read by the interface, to report why the daemon exited.
    Pipe,
    /// Thrown away.
    Discard,
}

/// Where the daemon's error output goes: the debug log when debug logging is
/// on and the file could be opened, a pipe when it could not, nowhere otherwise.
pub fn stderr_sink(enable_debug_log: bool, log_opened: bool) -> (r: StderrSink)
    ensures
        r == (if !enable_debug_log {
            StderrSink::Discard
        } else if log_opened {
            StderrSink::LogFile
        } else {
            StderrSink::Pipe
        }),
{
    if enable_debug_log {
        if log_opened { StderrSink::LogFile } else { StderrSink::Pipe }
    } else {
        StderrSink::Discard
    }
}

/// What stopping does once the grace period has passed.
#[derive(PartialEq, Eq, Structural, Clone, Copy, Debug)]
pub enum StopStep {
    /// The daemon stopped on request.
    Done,
    /// Kill the daemon process that this interface started.
    KillChild,
    /// Kill any daemon process by its name.
    KillByName,
}

/// What stopping does after the grace period: nothing when the daemon no
/// longer answers, else kill the process this interface started, or any
/// daemon process by name when it started none.
pub fn stop_step(still_running: bool, has_child: bool) -> (r: StopStep)
    ensures
        r == (if !still_running {
            StopStep::Done
        } else if has_child {
            StopStep::KillChild
        } else {
            StopStep::KillByName
        }),
{
    if !still_running {
        StopStep::Done
    } else if has_child {
        StopStep::KillChild
    } else {
        StopStep::KillByName
    }
}

/// The daemon binary's file name on the platform.
pub fn client_binary_name(windows: bool) -> (r: &'static str)
    ensures
        r@ == (if windows { "geph5-client.exe"@ } else { "geph5-client"@ }),
{
    if windows { "geph5-client.exe" } else { "geph5-client" }
}

/// The first candidate that exists: candidates are the directory of the
/// interface's executable, then the directories on the search path, in order.
pub fn first_found(found: &Vec<bool>) -> (r: Option<usize>)
    ensures
        match r {
            Some(i) => i < found@.len() && found@[i as int] && forall|j: int| 0 <= j < i ==> !found@[j],
            None => forall|j: int| 0 <= j < found@.len() ==> !found@[j],
        },
{
    let mut i: usize = 0;
    while i < found.len()
        invariant
            i <= found@.len(),
            forall|j: int| 0 <= j < i ==> !found@[j],
        decreases found@.len() - i,
    {
        if found[i] {
            return Some(i);
        }
        i = i + 1;
    }
    None
}

/// The message when no daemon binary was found.
pub fn client_not_found_message() -> (r: &'static str)
    ensures
        r@ == "geph5-client binary not found next to TUI executable or in PATH. Build it with: cargo build -p geph5-client --features aws_lambda"@,
{
    "geph5-client binary not found next to TUI executable or in PATH. Build it with: cargo build -p geph5-client --features aws_lambda"
}

/// The files of the connection-token cache, in the cache directory.
pub fn token_cache_files() -> (r: Vec<&'static str>)
    ensures
        r@.len() == 3,
        r@[0]@ == "database.db"@,
        r@[1]@ == "database.db-wal"@,
        r@[2]@ == "database.db-shm"@,
{
    let mut r: Vec<&'static str> = Vec::new();
    r.push("database.db");
    r.push("database.db-wal");
    r.push("database.db-shm");
    r
}

} // verus!
