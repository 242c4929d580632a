use geph_tui::exits::Exit;
use geph_tui::keys::RpcReply;
use geph_tui::model::{AccountLevel, ConnState, NewsItem, TuiPrefs, TuiState};
use geph_tui::poll::{
    apply_daemon_probe, apply_exits, apply_news, apply_registration_poll, apply_user_info, is_chinese_locale,
    news_language, news_language_for, registration_poll_due, wants_news, wants_user_info, RegistrationProgress,
};

fn state() -> TuiState {
    TuiState::from_prefs(TuiPrefs {
        secret: "s3cret".to_string(),
        socks_port: "9909".to_string(),
        http_port: "9910".to_string(),
        listen_all: false,
        selected_country: None,
        enable_debug_log: false,
        allow_direct: false,
        last_connected_secret: None,
    })
}

#[test]
fn probe_sets_running_and_connection() {
    let mut s = state();
    apply_daemon_probe(&mut s, true, Some(ConnState::Connecting));
    assert!(s.is_running);
    assert!(matches!(s.conn, ConnState::Connecting));
    apply_daemon_probe(&mut s, true, None);
    assert!(matches!(s.conn, ConnState::Connecting));
    apply_daemon_probe(&mut s, false, Some(ConnState::Connecting));
    assert!(!s.is_running);
    assert!(matches!(s.conn, ConnState::Disconnected));
}

#[test]
fn user_info_detects_plus_and_expiry() {
    let mut s = state();
    assert!(!wants_user_info(&s));
    s.is_running = true;
    assert!(wants_user_info(&s));
    let level = apply_user_info(&mut s, Some(Some(1000 + 3 * 86400)), 1000);
    assert_eq!(level, AccountLevel::Plus);
    assert_eq!(s.plus_secs_left, Some(3 * 86400));
    assert!(s.needs_cache_clear);
    assert_eq!(s.level_notice.as_deref(), Some("VIP detected! Press x then s to reconnect with VIP access."));
    // same answer again: no new notice
    s.level_notice = None;
    s.needs_cache_clear = false;
    assert_eq!(apply_user_info(&mut s, Some(Some(1000 + 3 * 86400)), 1000), AccountLevel::Plus);
    assert!(s.level_notice.is_none());
    assert!(!s.needs_cache_clear);
    // expired
    assert_eq!(apply_user_info(&mut s, Some(Some(500)), 1000), AccountLevel::Free);
    assert_eq!(s.plus_secs_left, Some(0));
    assert_eq!(s.level_notice.as_deref(), Some("VIP expired. Press x then s to reconnect."));
}

#[test]
fn user_info_ignored_when_stopped() {
    let mut s = state();
    assert_eq!(apply_user_info(&mut s, Some(Some(u64::MAX)), 0), AccountLevel::Free);
    assert_eq!(s.last_detected_level, AccountLevel::Free);
    assert!(s.level_notice.is_none());
}

#[test]
fn exits_replace_region_list() {
    let mut s = state();
    let exits = vec![Exit { alpha2: "NL".to_string(), name: "Netherlands".to_string(), allowed_levels: vec![AccountLevel::Free] }];
    apply_exits(&mut s, &exits, AccountLevel::Free);
    assert_eq!(s.countries.len(), 1);
    apply_exits(&mut s, &exits, AccountLevel::Plus);
    assert!(s.countries.is_empty());
}

#[test]
fn news_fetched_once_while_running() {
    let mut s = state();
    assert!(!wants_news(&s));
    s.is_running = true;
    assert!(wants_news(&s));
    apply_news(&mut s, vec![NewsItem { title: "t".to_string(), contents: "c".to_string(), important: false }]);
    assert!(!wants_news(&s));
}

#[test]
fn news_language_from_locale() {
    assert_eq!(news_language_for(&Some("zh-CN".to_string())), "zh");
    assert_eq!(news_language_for(&Some("en-US".to_string())), "en");
    assert_eq!(news_language_for(&None), "en");
    assert!(is_chinese_locale(&Some("zh_TW".to_string())));
    let lang = news_language();
    assert!(lang == "zh" || lang == "en");
}

#[test]
fn registration_poll_outcomes() {
    let mut s = state();
    s.registration_idx = Some(4);
    assert_eq!(registration_poll_due(&s), Some(4));
    apply_registration_poll(&mut s, RpcReply::Done(RegistrationProgress { secret: None, percent_text: "42.0".to_string() }));
    assert_eq!(s.registration_status, "Registering... 42.0%");
    apply_registration_poll(&mut s, RpcReply::Failed("io".to_string()));
    assert_eq!(s.registration_status, "Registering... 42.0%");
    s.is_running = true;
    s.last_detected_level = AccountLevel::Plus;
    apply_registration_poll(&mut s, RpcReply::Done(RegistrationProgress { secret: Some("new".to_string()), percent_text: "100.0".to_string() }));
    assert_eq!(s.secret, "new");
    assert_eq!(s.registration_status, "Registration complete!");
    assert_eq!(s.registration_idx, None);
    assert!(s.needs_cache_clear);
    assert_eq!(s.last_detected_level, AccountLevel::Free);
    assert_eq!(s.level_notice.as_deref(), Some("New account registered. Press 'x' then 's' to reconnect."));
    s.registration_idx = Some(5);
    apply_registration_poll(&mut s, RpcReply::Refused("full".to_string()));
    assert_eq!(s.registration_status, "Registration failed: full");
    assert_eq!(s.registration_idx, None);
}

#[test]
fn autostart_needs_secret_and_stopped_daemon() {
    let mut p = state().to_prefs();
    assert!(geph_tui::poll::autostart_due(&p, false));
    assert!(!geph_tui::poll::autostart_due(&p, true));
    p.secret = String::new();
    assert!(!geph_tui::poll::autostart_due(&p, false));
}

#[test]
fn locale_choice_is_consistent() {
    let (locale, chinese) = geph_tui::poll::system_locale_choice();
    assert_eq!(chinese, is_chinese_locale(&locale));
    assert_eq!(geph_tui::poll::system_prefers_chinese(), chinese);
}
