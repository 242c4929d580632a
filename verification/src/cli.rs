use vstd::prelude::*;

use crate::model::{clone_string, ConnState, TuiPrefs};

verus! {

/// A control command given with `--ctl`.
#[derive(PartialEq, Eq, Structural, Clone, Copy, Debug)]
pub enum CtlCommand {
    Start,
    Stop,
    Status,
}

/// What the command line asks for.
#[derive(PartialEq, Eq, Structural, Clone, Copy, Debug)]
pub enum CliMode {
    /// Print the usage text.
    Help,
    /// Run a control command without the interface.
    Ctl(CtlCommand),
    /// `--ctl` with an unknown command: print the control usage and fail.
    CtlUsage,
    /// Run the interactive interface.
    Interactive,
}

/// What the command line `args` (program name first) asks for.
pub open spec fn cli_mode(args: Seq<Seq<char>>) -> CliMode {
    if args.len() > 1 && (args[1] == "-h"@ || args[1] == "--help"@) {
        CliMode::Help
    } else if args.len() > 1 && args[1] == "--ctl"@ {
        let sub = if args.len() > 2 { args[2] } else { "status"@ };
        if sub == "start"@ {
            CliMode::Ctl(CtlCommand::Start)
        } else if sub == "stop"@ {
            CliMode::Ctl(CtlCommand::Stop)
        } else if sub == "status"@ {
            CliMode::Ctl(CtlCommand::Status)
        } else {
            CliMode::CtlUsage
        }
    } else {
        CliMode::Interactive
    }
}

/// The arguments by their characters.
pub open spec fn args_view(args: Seq<String>) -> Seq<Seq<char>> {
    args.map_values(|a: String| a@)
}

fn is_text(a: &String, t: &str) -> (r: bool)
    ensures
        r == (a@ == t@),
{
    *a == String::from_str(t)
}

/// The command line's modes: `--ctl` followed by `start`, `stop` or `status`
/// runs that command, `--ctl` alone runs `status`, any other word after `--ctl`
/// is a usage error, `-h` or `--help` asks for help, and anything else opens
/// the interactive interface.
pub proof fn law_cli_modes(args: Seq<Seq<char>>)
    ensures
        args.len() > 2 && args[1] == "--ctl"@ && args[2] == "start"@ ==> cli_mode(args) == CliMode::Ctl(CtlCommand::Start),
        args.len() > 2 && args[1] == "--ctl"@ && args[2] == "stop"@ ==> cli_mode(args) == CliMode::Ctl(CtlCommand::Stop),
        args.len() > 2 && args[1] == "--ctl"@ && args[2] == "status"@ ==> cli_mode(args) == CliMode::Ctl(CtlCommand::Status),
        args.len() == 2 && args[1] == "--ctl"@ ==> cli_mode(args) == CliMode::Ctl(CtlCommand::Status),
        args.len() > 2 && args[1] == "--ctl"@ && args[2] != "start"@ && args[2] != "stop"@ && args[2] != "status"@
            ==> cli_mode(args) == CliMode::CtlUsage,
        args.len() > 1 && (args[1] == "-h"@ || args[1] == "--help"@) ==> cli_mode(args) == CliMode::Help,
        args.len() <= 1 || (args[1] != "-h"@ && args[1] != "--help"@ && args[1] != "--ctl"@)
            ==> cli_mode(args) == CliMode::Interactive,
{
    reveal_strlit("--ctl");
    reveal_strlit("-h");
    reveal_strlit("--help");
    reveal_strlit("start");
    reveal_strlit("stop");
    reveal_strlit("status");
    assert("--ctl"@.len() == 5 && "-h"@.len() == 2 && "--help"@.len() == 6);
    assert("start"@.len() == 5 && "stop"@.len() == 4 && "status"@.len() == 6);
}

/// Reads the command line (program name first).
pub fn parse_cli(args: &Vec<String>) -> (mode: CliMode)
    ensures
        mode == cli_mode(args_view(args@)),
        args@.len() > 2 && args@[1]@ == "--ctl"@ && args@[2]@ == "start"@ ==> mode == CliMode::Ctl(CtlCommand::Start),
        args@.len() > 2 && args@[1]@ == "--ctl"@ && args@[2]@ == "stop"@ ==> mode == CliMode::Ctl(CtlCommand::Stop),
        args@.len() > 2 && args@[1]@ == "--ctl"@ && args@[2]@ == "status"@ ==> mode == CliMode::Ctl(CtlCommand::Status),
        args@.len() == 2 && args@[1]@ == "--ctl"@ ==> mode == CliMode::Ctl(CtlCommand::Status),
        args@.len() > 1 && (args@[1]@ == "-h"@ || args@[1]@ == "--help"@) ==> mode == CliMode::Help,
{
    let ghost v = args_view(args@);
    proof {
        law_cli_modes(v);
        if args@.len() > 1 {
            assert(v[1] == args@[1]@);
        }
        if args@.len() > 2 {
            assert(v[2] == args@[2]@);
        }
    }
    if args.len() > 1 && (is_text(&args[1], "-h") || is_text(&args[1], "--help")) {
        assert(v[1] == args@[1]@);
        return CliMode::Help;
    }
    if args.len() > 1 && is_text(&args[1], "--ctl") {
        assert(v[1] == args@[1]@);
        let sub = if args.len() > 2 {
            assert(v[2] == args@[2]@);
            clone_string(&args[2])
        } else {
            String::from_str("status")
        };
        if is_text(&sub, "start") {
            CliMode::Ctl(CtlCommand::Start)
        } else if is_text(&sub, "stop") {
            CliMode::Ctl(CtlCommand::Stop)
        } else if is_text(&sub, "status") {
            CliMode::Ctl(CtlCommand::Status)
        } else {
            CliMode::CtlUsage
        }
    } else {
        proof {
            if args@.len() > 1 {
                assert(v[1] == args@[1]@);
            }
        }
        CliMode::Interactive
    }
}

/// What `--ctl start` does.
#[derive(Clone, Debug)]
pub enum CtlStartPlan {
    /// Print "already running".
    AlreadyRunning,
    /// Print "no account configured" and fail.
    NoAccount,
    /// Clear the token cache and save `save` first when asked, then start the
    /// daemon with the loaded preferences and print "started".
    Start { clear_token_cache: bool, save: Option<TuiPrefs> },
}

/// What `--ctl start` does: nothing when the daemon runs, fail without an
/// account; otherwise start, first clearing the token cache and recording the
/// secret as last connected when it differs from the last connected one.
pub open spec fn ctl_start_plan(running: bool, p: TuiPrefs) -> CtlStartPlan {
    if running {
        CtlStartPlan::AlreadyRunning
    } else if p.secret@.len() == 0 {
        CtlStartPlan::NoAccount
    } else if (match p.last_connected_secret { Some(l) => l@ == p.secret@, None => false }) {
        CtlStartPlan::Start { clear_token_cache: false, save: None }
    } else {
        CtlStartPlan::Start {
            clear_token_cache: true,
            save: Some(TuiPrefs { last_connected_secret: Some(p.secret), ..p }),
        }
    }
}

/// Plans `--ctl start` for loaded preferences and whether the daemon answers.
pub fn plan_ctl_start(running: bool, prefs: &TuiPrefs) -> (plan: CtlStartPlan)
    ensures
        plan == ctl_start_plan(running, *prefs),
{
    if running {
        return CtlStartPlan::AlreadyRunning;
    }
    if prefs.secret.unicode_len() == 0 {
        return CtlStartPlan::NoAccount;
    }
    let same = match &prefs.last_connected_secret {
        Some(l) => *l == prefs.secret,
        None => false,
    };
    if same {
        CtlStartPlan::Start { clear_token_cache: false, save: None }
    } else {
        let mut saved = prefs.clone_prefs();
        saved.last_connected_secret = Some(clone_string(&prefs.secret));
        CtlStartPlan::Start { clear_token_cache: true, save: Some(saved) }
    }
}

impl TuiPrefs {
    /// A copy of the preferences.
    pub fn clone_prefs(&self) -> (r: TuiPrefs)
        ensures
            r == *self,
    {
        TuiPrefs {
            secret: clone_string(&self.secret),
            socks_port: clone_string(&self.socks_port),
            http_port: clone_string(&self.http_port),
            listen_all: self.listen_all,
            selected_country: crate::model::clone_opt_string(&self.selected_country),
            enable_debug_log: self.enable_debug_log,
            allow_direct: self.allow_direct,
            last_connected_secret: crate::model::clone_opt_string(&self.last_connected_secret),
        }
    }
}

/// Whether `--ctl stop` asks the daemon to stop: only when it answers;
/// otherwise it prints "not running".
pub fn plan_ctl_stop(running: bool) -> (stop: bool)
    ensures
        stop == running,
{
    running
}

/// The listen address shown for the preference.
pub open spec fn listen_addr_text(listen_all: bool) -> Seq<char> {
    if listen_all { "0.0.0.0"@ } else { "127.0.0.1"@ }
}

/// The name of a connection state in the status report.
pub open spec fn conn_name(c: ConnState) -> Seq<char> {
    match c {
        ConnState::Connected { .. } => "connected"@,
        ConnState::Connecting => "connecting"@,
        ConnState::Disconnected => "disconnected"@,
    }
}

/// The lines that `--ctl status` prints: whether the daemon runs, its
/// connection state when it does, the ports and listen address from the
/// preferences, and the first session's exit when connected.
pub open spec fn status_report_lines(p: TuiPrefs, running: bool, conn: ConnState) -> Seq<Seq<char>> {
    let ports = seq![
        "socks5_port="@ + p.socks_port@,
        "http_port="@ + p.http_port@,
        "listen_addr="@ + listen_addr_text(p.listen_all),
    ];
    if !running {
        seq!["running=no"@] + ports
    } else {
        let exit = match conn {
            ConnState::Connected { sessions } => if sessions@.len() > 0 {
                seq!["exit="@ + sessions@[0].name@ + " ("@ + sessions@[0].alpha2@ + ")"@]
            } else {
                Seq::empty()
            },
            _ => Seq::empty(),
        };
        seq!["running=yes"@, "conn="@ + conn_name(conn)] + ports + exit
    }
}

/// The status report's first lines: whether the daemon runs and, when it
/// does, the connection state by its own name (three different names), then
/// the ports and the listen address.
pub proof fn law_status_report_heads(p: TuiPrefs, conn: ConnState)
    ensures
        status_report_lines(p, false, conn).len() == 4,
        status_report_lines(p, false, conn)[0] == "running=no"@,
        status_report_lines(p, true, conn).len() >= 5,
        status_report_lines(p, true, conn)[0] == "running=yes"@,
        conn is Disconnected ==> status_report_lines(p, true, conn)[1] == "conn=disconnected"@,
        conn is Connecting ==> status_report_lines(p, true, conn)[1] == "conn=connecting"@,
        conn is Connected ==> status_report_lines(p, true, conn)[1] == "conn=connected"@,
        "conn=disconnected"@ != "conn=connecting"@,
        "conn=disconnected"@ != "conn=connected"@,
        "conn=connecting"@ != "conn=connected"@,
        status_report_lines(p, true, conn)[2] == "socks5_port="@ + p.socks_port@,
        status_report_lines(p, true, conn)[3] == "http_port="@ + p.http_port@,
        status_report_lines(p, true, conn)[4] == "listen_addr="@ + (if p.listen_all { "0.0.0.0"@ } else { "127.0.0.1"@ }),
{
    reveal_strlit("conn=");
    reveal_strlit("connected");
    reveal_strlit("connecting");
    reveal_strlit("disconnected");
    reveal_strlit("conn=disconnected");
    reveal_strlit("conn=connecting");
    reveal_strlit("conn=connected");
    assert("conn=disconnected"@[5] != "conn=connecting"@[5]);
    assert("conn=disconnected"@[5] != "conn=connected"@[5]);
    assert("conn=connecting"@.len() != "conn=connected"@.len());
    assert("conn="@ + "disconnected"@ =~= "conn=disconnected"@);
    assert("conn="@ + "connecting"@ =~= "conn=connecting"@);
    assert("conn="@ + "connected"@ =~= "conn=connected"@);
}

/// The lines that `--ctl status` prints. `conn` is the daemon's connection
/// state when it runs (disconnected when the query failed).
pub fn status_report(prefs: &TuiPrefs, running: bool, conn: &ConnState) -> (lines: Vec<String>)
    ensures
        lines@.len() == status_report_lines(*prefs, running, *conn).len(),
        forall|i: int| 0 <= i < lines@.len() ==> #[trigger] lines@[i]@ == status_report_lines(*prefs, running, *conn)[i],
        !running ==> lines@.len() == 4 && lines@[0]@ == "running=no"@,
        running ==> lines@.len() >= 5 && lines@[0]@ == "running=yes"@,
        running && conn is Disconnected ==> lines@[1]@ == "conn=disconnected"@,
        running && conn is Connecting ==> lines@[1]@ == "conn=connecting"@,
        running && conn is Connected ==> lines@[1]@ == "conn=connected"@,
{
    proof {
        law_status_report_heads(*prefs, *conn);
    }
    let mut lines: Vec<String> = Vec::new();
    if running {
        lines.push(String::from_str("running=yes"));
        let name = match conn {
            ConnState::Connected { .. } => "connected",
            ConnState::Connecting => "connecting",
            ConnState::Disconnected => "disconnected",
        };
        lines.push(String::from_str("conn=").concat(name));
    } else {
        lines.push(String::from_str("running=no"));
    }
    lines.push(String::from_str("socks5_port=").concat(prefs.socks_port.as_str()));
    lines.push(String::from_str("http_port=").concat(prefs.http_port.as_str()));
    lines.push(String::from_str("listen_addr=").concat(if prefs.listen_all { "0.0.0.0" } else { "127.0.0.1" }));
    if running {
        if let ConnState::Connected { sessions } = conn {
            if sessions.len() > 0 {
                let s = &sessions[0];
                lines.push(String::from_str("exit=").concat(s.name.as_str()).concat(" (").concat(s.alpha2.as_str()).concat(")"));
            }
        }
    }
    proof {
        let want = status_report_lines(*prefs, running, *conn);
        assert(lines@.len() == want.len());
        assert forall|i: int| 0 <= i < lines@.len() implies #[trigger] lines@[i]@ == want[i] by {}
    }
    lines
}

} // verus!
