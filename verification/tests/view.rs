use geph_tui::model::{AccountLevel, ConnState, Country, NewsItem, SessionExit, TuiPrefs, TuiState};
use geph_tui::view::{
    clamp_status_scroll, config_view, debug_switch_text, fit_debug_scroll, fit_status_scroll, measure_line,
    region_rows, region_title, status_top_line, status_view, Piece, Shade,
};

fn state() -> TuiState {
    TuiState::from_prefs(TuiPrefs {
        secret: String::new(),
        socks_port: "9909".to_string(),
        http_port: "9910".to_string(),
        listen_all: false,
        selected_country: None,
        enable_debug_log: false,
        allow_direct: false,
        last_connected_secret: None,
    })
}

fn texts(line: &[Piece]) -> Vec<(String, Shade)> {
    line.iter().map(|p| (p.text.clone(), p.shade)).collect()
}

fn t(s: &str, shade: Shade) -> (String, Shade) {
    (s.to_string(), shade)
}

#[test]
fn top_line_when_stopped() {
    let s = state();
    assert_eq!(texts(&status_top_line(&s)), vec![
        t("Daemon: ", Shade::Plain),
        t("Stopped", Shade::Red),
        t(" | Network: ", Shade::Plain),
        t("Disconnected", Shade::Red),
        t(" | Exit: ", Shade::Plain),
        t("Auto", Shade::Cyan),
        t(" | Listen: ", Shade::Plain),
        t("127.0.0.1", Shade::Gray),
    ]);
}

#[test]
fn top_line_when_switching() {
    let mut s = state();
    s.is_running = true;
    s.conn = ConnState::Connecting;
    s.selected_country = Some("JP".to_string());
    s.switch_in_progress = true;
    s.last_switch_target = Some("JP".to_string());
    s.listen_all = true;
    let line = texts(&status_top_line(&s));
    assert_eq!(line[1], t("Running", Shade::Green));
    assert_eq!(line[3], t("Connecting...", Shade::Yellow));
    assert_eq!(line[5], t("JP", Shade::Cyan));
    assert_eq!(line[6], t(" (switching to JP...)", Shade::Yellow));
    assert_eq!(line[8], t("0.0.0.0", Shade::Magenta));
}

fn session(code: &str) -> SessionExit {
    SessionExit { alpha2: code.to_string(), name: String::new() }
}

#[test]
fn drain_line_names_active_and_draining() {
    let mut s = state();
    s.is_running = true;
    s.conn = ConnState::Connected { sessions: vec![session("US"), session("DE"), session("US")] };
    let lines = status_view(&s, false, &None, None);
    assert_eq!(lines.len(), 2);
    assert_eq!(texts(&lines[1]), vec![
        t("Active: US (2 sessions)", Shade::Green),
        t(" | ", Shade::Plain),
        t("Draining: DE (1 session)", Shade::DarkGray),
    ]);
}

#[test]
fn single_region_has_no_drain_line() {
    let mut s = state();
    s.conn = ConnState::Connected { sessions: vec![session("US"), session("US")] };
    assert_eq!(status_view(&s, false, &None, None).len(), 1);
}

#[test]
fn update_and_plus_lines() {
    let mut s = state();
    s.last_detected_level = AccountLevel::Plus;
    let update = Some(("1.2.3".to_string(), "/tmp/x".to_string()));
    let lines = status_view(&s, false, &update, Some(12));
    assert_eq!(lines.len(), 7);
    assert!(lines[1].is_empty());
    assert_eq!(texts(&lines[2]), vec![t("Notice: Update package for Geph (1.2.3) downloaded to:", Shade::Yellow)]);
    assert_eq!(texts(&lines[3]), vec![t("/tmp/x", Shade::Yellow)]);
    assert_eq!(texts(&lines[6]), vec![t("Welcome, Plus user! (12 days left)", Shade::Green)]);
    let zh = status_view(&s, true, &None, None);
    assert_eq!(texts(&zh[2]), vec![t("欢迎，尊贵的 Plus 用户！", Shade::Green)]);
}

#[test]
fn notice_takes_the_place_of_greeting() {
    let mut s = state();
    s.last_detected_level = AccountLevel::Plus;
    s.level_notice = Some("VIP expired. Press x then s to reconnect.".to_string());
    let lines = status_view(&s, false, &None, Some(3));
    assert_eq!(lines.len(), 3);
    assert_eq!(texts(&lines[2]), vec![t("VIP expired. Press x then s to reconnect.", Shade::Yellow)]);
}

#[test]
fn news_lines() {
    let mut s = state();
    s.news = vec![
        NewsItem { title: "Outage".to_string(), contents: "first\nsecond".to_string(), important: true },
        NewsItem { title: "Tip".to_string(), contents: String::new(), important: false },
    ];
    let lines = status_view(&s, false, &None, None);
    let got: Vec<Vec<(String, Shade)>> = lines.iter().skip(1).map(|l| texts(l)).collect();
    assert_eq!(got, vec![
        vec![],
        vec![t("[!] Outage", Shade::Red)],
        vec![t("first", Shade::Gray)],
        vec![t("second", Shade::Gray)],
        vec![],
        vec![t("[*] Tip", Shade::Cyan)],
    ]);
}

#[test]
fn status_scroll_is_clamped() {
    let mut s = state();
    s.status_scroll = 50;
    // box 12 wide: 10 cells of text; 3 lines of widths 25, 0, 10 take 3 + 0 + 1 rows;
    // box 4 high: 2 inner rows, so at most 2 rows of scroll
    clamp_status_scroll(&mut s, &vec![25, 0, 10], 12, 4);
    assert_eq!(s.status_scroll, 2);
    s.status_scroll = 1;
    clamp_status_scroll(&mut s, &vec![25, 0, 10], 12, 4);
    assert_eq!(s.status_scroll, 1);
}

#[test]
fn measured_widths_drive_the_clamp() {
    let line = vec![
        Piece { text: "ab".to_string(), shade: Shade::Plain },
        Piece { text: "你好".to_string(), shade: Shade::Plain },
    ];
    assert_eq!(measure_line(&line), Some(6));
    let mut s = state();
    s.status_scroll = 9;
    // 6 cells in a 3-cell-wide text area: 2 rows; 1 inner row: 1 row of scroll
    assert!(fit_status_scroll(&mut s, &vec![line], 5, 3));
    assert_eq!(s.status_scroll, 1);
}

#[test]
fn debug_scroll_follows_log() {
    let mut s = state();
    fit_debug_scroll(&mut s, 30, 12);
    assert_eq!(s.debug_scroll, 20);
    s.debug_auto_scroll = false;
    s.debug_scroll = 25;
    fit_debug_scroll(&mut s, 30, 12);
    assert_eq!(s.debug_scroll, 20);
    s.debug_scroll = 5;
    fit_debug_scroll(&mut s, 30, 12);
    assert_eq!(s.debug_scroll, 5);
    fit_debug_scroll(&mut s, 3, 12);
    assert_eq!(s.debug_scroll, 0);
}

#[test]
fn region_rows_mark_the_exit() {
    let mut s = state();
    s.countries = vec![
        Country { alpha2: "CA".to_string(), name: "Canada".to_string() },
        Country { alpha2: "US".to_string(), name: "United States of America".to_string() },
    ];
    s.selected_country = Some("US".to_string());
    assert_eq!(region_rows(&s), vec!["[ ] CA - Canada", "[*] US - United States of America"]);
    assert_eq!(region_title(&s), "Regions (Up/Down to select, Enter to apply, 'a' for Auto)");
    s.switch_in_progress = true;
    assert_eq!(region_title(&s), "Regions (Up/Down to select, Enter to apply, 'a' for Auto) [switching...]");
}

#[test]
fn config_and_debug_texts() {
    let mut s = state();
    s.listen_all = true;
    s.registration_status = "Registration started...".to_string();
    let v = config_view(&s);
    assert_eq!(v[0], "VPN Mode: OFF (Press 'v' to toggle)");
    assert_eq!(v[1], "Listen All Interfaces: ON (Press 'l' to toggle)");
    assert_eq!(v[2], "Connection Mode: Bridged (Press 'b' to toggle)");
    assert_eq!(v[3], "Press 'e' for Secret, 'p' for SOCKS5, 'h' for HTTP port editing.\nEnter/Esc to finish. Press 'r' to register new secret.\nRegistration started...");
    s.enable_debug_log = true;
    assert_eq!(debug_switch_text(&s), "Debug Logging to 'gephgui.log': ON (Press 'd' to toggle)\nNote: Changes take effect on next Start ('s').");
}

#[test]
fn no_sessions_no_drain_line() {
    let mut s = state();
    s.conn = ConnState::Connected { sessions: vec![] };
    assert_eq!(status_view(&s, false, &None, None).len(), 1);
}
