use geph_tui::keys::{
    daemon_started_for_registration, handle_focused_input, handle_global_key, registration_started,
    FocusedAction, KeyAction, RpcReply,
};
use geph_tui::model::{Country, Focus, Key, Tab, TuiPrefs, TuiState};

fn prefs() -> TuiPrefs {
    TuiPrefs {
        secret: "abc".to_string(),
        socks_port: "9909".to_string(),
        http_port: "9910".to_string(),
        listen_all: false,
        selected_country: None,
        enable_debug_log: false,
        allow_direct: false,
        last_connected_secret: None,
    }
}

fn state() -> TuiState {
    TuiState::from_prefs(prefs())
}

fn country(code: &str, name: &str) -> Country {
    Country { alpha2: code.to_string(), name: name.to_string() }
}

#[test]
fn number_keys_switch_tabs() {
    let mut s = state();
    for (c, tab) in [('1', Tab::Status), ('2', Tab::Nodes), ('3', Tab::Config), ('4', Tab::Debug)] {
        let a = handle_global_key(&mut s, Key::Char(c), 0);
        assert!(matches!(a, KeyAction::Nothing));
        assert_eq!(s.tab, tab);
    }
}

#[test]
fn q_quits() {
    let mut s = state();
    assert!(matches!(handle_global_key(&mut s, Key::Char('q'), 0), KeyAction::Quit));
}

#[test]
fn start_with_new_secret_clears_cache() {
    let mut s = state();
    s.level_notice = Some("notice".to_string());
    match handle_global_key(&mut s, Key::Char('s'), 0) {
        KeyAction::StartDaemon { clear_token_cache, prefs } => {
            assert!(clear_token_cache);
            assert_eq!(prefs.last_connected_secret.as_deref(), Some("abc"));
            assert_eq!(prefs.secret, "abc");
        }
        _ => panic!("expected a start"),
    }
    assert_eq!(s.last_connected_secret.as_deref(), Some("abc"));
    assert!(s.level_notice.is_none());
    // same secret again: no clear
    match handle_global_key(&mut s, Key::Char('s'), 0) {
        KeyAction::StartDaemon { clear_token_cache, .. } => assert!(!clear_token_cache),
        _ => panic!("expected a start"),
    }
}

#[test]
fn start_with_pending_clear_clears_cache() {
    let mut s = state();
    s.last_connected_secret = Some("abc".to_string());
    s.needs_cache_clear = true;
    match handle_global_key(&mut s, Key::Char('s'), 0) {
        KeyAction::StartDaemon { clear_token_cache, .. } => assert!(clear_token_cache),
        _ => panic!("expected a start"),
    }
    assert!(!s.needs_cache_clear);
}

#[test]
fn start_while_running_does_nothing() {
    let mut s = state();
    s.is_running = true;
    assert!(matches!(handle_global_key(&mut s, Key::Char('s'), 0), KeyAction::Nothing));
    assert!(s.last_connected_secret.is_none());
}

#[test]
fn x_stops_only_when_running() {
    let mut s = state();
    assert!(matches!(handle_global_key(&mut s, Key::Char('x'), 0), KeyAction::Nothing));
    s.is_running = true;
    assert!(matches!(handle_global_key(&mut s, Key::Char('x'), 0), KeyAction::StopDaemon));
}

#[test]
fn edit_keys_only_in_config_tab() {
    let mut s = state();
    handle_global_key(&mut s, Key::Char('e'), 0);
    assert_eq!(s.focus, Focus::NoField);
    s.tab = Tab::Config;
    handle_global_key(&mut s, Key::Char('e'), 0);
    assert_eq!(s.focus, Focus::Secret);
    assert_eq!(handle_focused_input(&mut s, Key::Char('z')), FocusedAction::FeedSecret);
    assert_eq!(handle_focused_input(&mut s, Key::Esc), FocusedAction::Leave);
    assert_eq!(s.focus, Focus::NoField);
    handle_global_key(&mut s, Key::Char('p'), 0);
    assert_eq!(s.focus, Focus::SocksPort);
    assert_eq!(handle_focused_input(&mut s, Key::Up), FocusedAction::FeedSocksPort);
    assert_eq!(handle_focused_input(&mut s, Key::Enter), FocusedAction::Leave);
    handle_global_key(&mut s, Key::Char('h'), 0);
    assert_eq!(s.focus, Focus::HttpPort);
    assert_eq!(handle_focused_input(&mut s, Key::Char('1')), FocusedAction::FeedHttpPort);
}

#[test]
fn focused_input_without_field_is_ignored() {
    let mut s = state();
    assert_eq!(handle_focused_input(&mut s, Key::Char('a')), FocusedAction::Ignore);
}

#[test]
fn toggles_in_config_and_debug() {
    let mut s = state();
    s.tab = Tab::Config;
    handle_global_key(&mut s, Key::Char('l'), 0);
    assert!(s.listen_all);
    handle_global_key(&mut s, Key::Char('b'), 0);
    assert!(s.allow_direct);
    handle_global_key(&mut s, Key::Char('l'), 0);
    assert!(!s.listen_all);
    s.tab = Tab::Debug;
    handle_global_key(&mut s, Key::Char('d'), 0);
    assert!(s.enable_debug_log);
    // 'l' outside the config tab does nothing
    handle_global_key(&mut s, Key::Char('l'), 0);
    assert!(!s.listen_all);
}

#[test]
fn register_starts_daemon_first_when_stopped() {
    let mut s = state();
    s.tab = Tab::Config;
    assert!(matches!(handle_global_key(&mut s, Key::Char('r'), 0), KeyAction::StartDaemonThenRegister { .. }));
    s.is_running = true;
    assert!(matches!(handle_global_key(&mut s, Key::Char('r'), 0), KeyAction::StartRegistration));
}

#[test]
fn region_navigation_wraps() {
    let mut s = state();
    s.tab = Tab::Nodes;
    s.countries = vec![country("CA", "Canada"), country("DE", "Germany"), country("US", "United States")];
    handle_global_key(&mut s, Key::Down, 0);
    assert_eq!(s.selected_index, Some(0));
    handle_global_key(&mut s, Key::Down, 0);
    handle_global_key(&mut s, Key::Down, 0);
    assert_eq!(s.selected_index, Some(2));
    handle_global_key(&mut s, Key::Down, 0);
    assert_eq!(s.selected_index, Some(0));
    handle_global_key(&mut s, Key::Up, 0);
    assert_eq!(s.selected_index, Some(2));
    handle_global_key(&mut s, Key::Enter, 0);
    assert_eq!(s.selected_country.as_deref(), Some("US"));
    handle_global_key(&mut s, Key::Char('a'), 0);
    assert_eq!(s.selected_country, None);
}

#[test]
fn region_navigation_on_empty_list() {
    let mut s = state();
    s.tab = Tab::Nodes;
    handle_global_key(&mut s, Key::Up, 0);
    assert_eq!(s.selected_index, Some(0));
    handle_global_key(&mut s, Key::Enter, 0);
    assert_eq!(s.selected_country, None);
}

#[test]
fn status_scroll_saturates() {
    let mut s = state();
    handle_global_key(&mut s, Key::Char('k'), 0);
    assert_eq!(s.status_scroll, 0);
    handle_global_key(&mut s, Key::Char('j'), 0);
    assert_eq!(s.status_scroll, 1);
    s.status_scroll = u16::MAX;
    handle_global_key(&mut s, Key::Char('j'), 0);
    assert_eq!(s.status_scroll, u16::MAX);
}

#[test]
fn debug_scroll_keys() {
    let mut s = state();
    s.tab = Tab::Debug;
    s.debug_auto_scroll = false;
    handle_global_key(&mut s, Key::Down, 3);
    assert_eq!(s.debug_scroll, 1);
    assert!(!s.debug_auto_scroll);
    handle_global_key(&mut s, Key::Down, 3);
    assert_eq!(s.debug_scroll, 2);
    assert!(s.debug_auto_scroll);
    handle_global_key(&mut s, Key::Down, 3);
    assert_eq!(s.debug_scroll, 2);
    handle_global_key(&mut s, Key::Up, 3);
    assert_eq!(s.debug_scroll, 1);
    assert!(!s.debug_auto_scroll);
}

#[test]
fn registration_follow_ups() {
    let mut s = state();
    assert!(!daemon_started_for_registration(&mut s, Err("boom".to_string())));
    assert_eq!(s.registration_status, "Daemon failed to start: boom");
    assert!(daemon_started_for_registration(&mut s, Ok(true)));
    assert!(s.is_running);
    registration_started(&mut s, RpcReply::Done(7));
    assert_eq!(s.registration_idx, Some(7));
    assert_eq!(s.registration_status, "Registration started...");
    registration_started(&mut s, RpcReply::Refused("no".to_string()));
    assert_eq!(s.registration_status, "Failed to start: no");
    registration_started(&mut s, RpcReply::Failed("io".to_string()));
    assert_eq!(s.registration_status, "RPC error: io");
}

#[test]
fn prefs_round_trip_through_state() {
    let p = prefs();
    let s = TuiState::from_prefs(p.clone());
    let q = s.to_prefs();
    assert_eq!(q.secret, p.secret);
    assert_eq!(q.socks_port, p.socks_port);
    assert_eq!(q.http_port, p.http_port);
    assert_eq!(q.listen_all, p.listen_all);
    assert_eq!(q.last_connected_secret, p.last_connected_secret);
}

#[test]
fn edit_then_leave_changes_nothing() {
    let mut s = state();
    s.tab = Tab::Config;
    let before = format!("{:?}", s);
    handle_global_key(&mut s, Key::Char('p'), 0);
    handle_focused_input(&mut s, Key::Enter);
    assert_eq!(format!("{:?}", s), before);
}

#[test]
fn normal_keys_keep_text_fields() {
    let mut s = state();
    s.countries = vec![country("FR", "France")];
    for tab in ['1', '2', '3', '4'] {
        handle_global_key(&mut s, Key::Char(tab), 5);
        for key in [Key::Up, Key::Down, Key::Enter, Key::Esc, Key::Other, Key::Char('l'), Key::Char('j'), Key::Char('d')] {
            handle_global_key(&mut s, key, 5);
        }
    }
    assert_eq!(s.secret, "abc");
    assert_eq!(s.socks_port, "9909");
    assert_eq!(s.http_port, "9910");
    assert!(!s.is_running);
    assert_eq!(s.countries.len(), 1);
}

#[test]
fn status_scroll_down_then_up() {
    let mut s = state();
    s.status_scroll = 7;
    handle_global_key(&mut s, Key::Char('j'), 0);
    handle_global_key(&mut s, Key::Char('k'), 0);
    assert_eq!(s.status_scroll, 7);
}

#[test]
fn interface_and_ctl_start_agree_on_cache_clear() {
    let mut s = state();
    let plan = geph_tui::cli::plan_ctl_start(false, &s.to_prefs());
    let from_ctl = match plan {
        geph_tui::cli::CtlStartPlan::Start { clear_token_cache, .. } => clear_token_cache,
        _ => panic!("expected a start"),
    };
    let from_key = match handle_global_key(&mut s, Key::Char('s'), 0) {
        KeyAction::StartDaemon { clear_token_cache, .. } => clear_token_cache,
        _ => panic!("expected a start"),
    };
    assert!(from_ctl && from_key);
    s.is_running = false;
    let again = geph_tui::cli::plan_ctl_start(false, &s.to_prefs());
    assert!(matches!(again, geph_tui::cli::CtlStartPlan::Start { clear_token_cache: false, .. }));
}

#[test]
fn keys_go_to_field_only_while_editing() {
    let mut s = state();
    assert!(!geph_tui::keys::key_goes_to_field(&s));
    s.focus = Focus::HttpPort;
    assert!(geph_tui::keys::key_goes_to_field(&s));
}

#[test]
fn routing_sends_keys_to_the_focused_field() {
    let mut s = state();
    s.tab = Tab::Config;
    s.focus = Focus::Secret;
    assert!(matches!(geph_tui::keys::route_key(&mut s, Key::Char('q'), 0), geph_tui::keys::Routed::Field(FocusedAction::FeedSecret)));
    assert!(matches!(geph_tui::keys::route_key(&mut s, Key::Esc, 0), geph_tui::keys::Routed::Field(FocusedAction::Leave)));
    assert_eq!(s.focus, Focus::NoField);
    assert!(matches!(geph_tui::keys::route_key(&mut s, Key::Char('l'), 0), geph_tui::keys::Routed::Normal(KeyAction::Nothing)));
    assert!(s.listen_all);
    assert!(matches!(geph_tui::keys::route_key(&mut s, Key::Char('q'), 0), geph_tui::keys::Routed::Normal(KeyAction::Quit)));
}
