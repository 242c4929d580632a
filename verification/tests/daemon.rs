use geph_tui::cli::{parse_cli, plan_ctl_start, plan_ctl_stop, status_report, CliMode, CtlCommand, CtlStartPlan};
use geph_tui::daemon::{
    checked_running_settings, client_binary_name, client_not_found_message, first_found, is_known_alpha2,
    running_settings, start_result, stderr_sink, stop_step, token_cache_files, Ipv4, StartRace, StderrSink,
    StopStep, DEFAULT_HTTP_PORT, DEFAULT_SOCKS5_PORT, PAC_PORT,
};
use geph_tui::model::{ConnState, SessionExit, TuiPrefs};
use geph_tui::rpc::{frame_line, DaemonRpcTransport, RpcError};

fn prefs() -> TuiPrefs {
    TuiPrefs {
        secret: "s3cret".to_string(),
        socks_port: "1080".to_string(),
        http_port: "junk".to_string(),
        listen_all: true,
        selected_country: Some("DE".to_string()),
        enable_debug_log: false,
        allow_direct: true,
        last_connected_secret: None,
    }
}

#[test]
fn settings_from_prefs() {
    let d = running_settings(&prefs());
    assert!(!d.passthrough_china);
    assert_eq!(d.secret, "s3cret");
    assert_eq!(d.listen_ip, Ipv4 { a: 0, b: 0, c: 0, d: 0 });
    assert_eq!(d.socks5_port, 1080);
    assert_eq!(d.http_proxy_port, DEFAULT_HTTP_PORT);
    assert_eq!(d.pac_port, PAC_PORT);
    assert_eq!(d.exit_country.as_deref(), Some("DE"));
    assert!(d.allow_direct);
    let mut p = prefs();
    p.listen_all = false;
    p.socks_port = "70000".to_string();
    let d = running_settings(&p);
    assert_eq!(d.listen_ip, Ipv4 { a: 127, b: 0, c: 0, d: 1 });
    assert_eq!(d.socks5_port, DEFAULT_SOCKS5_PORT);
}

#[test]
fn unknown_exit_is_refused() {
    assert!(is_known_alpha2("US"));
    assert!(!is_known_alpha2("us"));
    assert!(!is_known_alpha2("ZZ"));
    let mut p = prefs();
    p.selected_country = Some("ZZ".to_string());
    assert!(checked_running_settings(&p).is_none());
    p.selected_country = None;
    assert!(checked_running_settings(&p).is_some());
}

#[test]
fn start_messages() {
    assert!(start_result(StartRace::Reachable).is_ok());
    assert_eq!(start_result(StartRace::TimedOut).unwrap_err(), "daemon did not start in 30");
    assert_eq!(start_result(StartRace::Exited(Some("bad config".to_string()))).unwrap_err(),
        "daemon exited before becoming reachable:\nbad config");
    assert_eq!(start_result(StartRace::Exited(None)).unwrap_err(), "daemon exited before becoming reachable");
}

#[test]
fn process_decisions() {
    assert_eq!(stderr_sink(false, true), StderrSink::Discard);
    assert_eq!(stderr_sink(true, true), StderrSink::LogFile);
    assert_eq!(stderr_sink(true, false), StderrSink::Pipe);
    assert_eq!(stop_step(false, true), StopStep::Done);
    assert_eq!(stop_step(true, true), StopStep::KillChild);
    assert_eq!(stop_step(true, false), StopStep::KillByName);
    assert_eq!(client_binary_name(true), "geph5-client.exe");
    assert_eq!(client_binary_name(false), "geph5-client");
    assert_eq!(first_found(&vec![false, true, true]), Some(1));
    assert_eq!(first_found(&vec![false, false]), None);
    assert!(client_not_found_message().starts_with("geph5-client binary not found"));
    assert_eq!(token_cache_files(), vec!["database.db", "database.db-wal", "database.db-shm"]);
}

fn args(v: &[&str]) -> Vec<String> {
    v.iter().map(|s| s.to_string()).collect()
}

#[test]
fn command_line_modes() {
    assert_eq!(parse_cli(&args(&["geph-tui"])), CliMode::Interactive);
    assert_eq!(parse_cli(&args(&["geph-tui", "-h"])), CliMode::Help);
    assert_eq!(parse_cli(&args(&["geph-tui", "--help"])), CliMode::Help);
    assert_eq!(parse_cli(&args(&["geph-tui", "--ctl"])), CliMode::Ctl(CtlCommand::Status));
    assert_eq!(parse_cli(&args(&["geph-tui", "--ctl", "start"])), CliMode::Ctl(CtlCommand::Start));
    assert_eq!(parse_cli(&args(&["geph-tui", "--ctl", "stop"])), CliMode::Ctl(CtlCommand::Stop));
    assert_eq!(parse_cli(&args(&["geph-tui", "--ctl", "restart"])), CliMode::CtlUsage);
    assert_eq!(parse_cli(&args(&["geph-tui", "other"])), CliMode::Interactive);
}

#[test]
fn ctl_start_plans() {
    let p = prefs();
    assert!(matches!(plan_ctl_start(true, &p), CtlStartPlan::AlreadyRunning));
    let mut empty = p.clone();
    empty.secret = String::new();
    assert!(matches!(plan_ctl_start(false, &empty), CtlStartPlan::NoAccount));
    match plan_ctl_start(false, &p) {
        CtlStartPlan::Start { clear_token_cache, save } => {
            assert!(clear_token_cache);
            assert_eq!(save.unwrap().last_connected_secret.as_deref(), Some("s3cret"));
        }
        _ => panic!("expected a start"),
    }
    let mut same = p.clone();
    same.last_connected_secret = Some("s3cret".to_string());
    match plan_ctl_start(false, &same) {
        CtlStartPlan::Start { clear_token_cache, save } => {
            assert!(!clear_token_cache);
            assert!(save.is_none());
        }
        _ => panic!("expected a start"),
    }
    assert!(plan_ctl_stop(true));
    assert!(!plan_ctl_stop(false));
}

#[test]
fn ctl_status_lines() {
    let p = prefs();
    assert_eq!(status_report(&p, false, &ConnState::Disconnected),
        vec!["running=no", "socks5_port=1080", "http_port=junk", "listen_addr=0.0.0.0"]);
    let conn = ConnState::Connected { sessions: vec![SessionExit { alpha2: "DE".to_string(), name: "Germany".to_string() }] };
    assert_eq!(status_report(&p, true, &conn),
        vec!["running=yes", "conn=connected", "socks5_port=1080", "http_port=junk", "listen_addr=0.0.0.0", "exit=Germany (DE)"]);
    assert_eq!(status_report(&p, true, &ConnState::Connecting)[1], "conn=connecting");
}

#[test]
fn rpc_lines() {
    assert_eq!(frame_line("{}"), "{}\n");
    let t = DaemonRpcTransport;
    let req = nanorpc::JrpcRequest {
        jsonrpc: "2.0".to_string(),
        method: "conn_info".to_string(),
        params: vec![serde_json::Value::String("a\nb".to_string())],
        id: nanorpc::JrpcId::Number(1),
    };
    let line = t.encode_request(&req).ok().unwrap();
    assert!(line.ends_with('\n'));
    assert_eq!(line.matches('\n').count(), 1);
    assert!(line.contains("\"method\":\"conn_info\""));
    let resp = t.decode_response("{\"jsonrpc\":\"2.0\",\"result\":5,\"id\":1}\n").ok().unwrap();
    assert_eq!(resp.result, Some(serde_json::Value::from(5)));
    assert!(matches!(t.decode_response("not json"), Err(RpcError::Decode(_))));
    let timed_out: Result<u8, RpcError> = t.settle(None);
    assert!(matches!(timed_out, Err(RpcError::TimedOut)));
    assert_eq!(t.settle(Some(Ok(3u8))).ok(), Some(3));
}
