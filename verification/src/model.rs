use vstd::prelude::*;

verus! {

/// The tab the interface shows.
#[derive(PartialEq, Eq, Structural, Clone, Copy, Debug)]
pub enum Tab {
    Status,
    Nodes,
    Config,
    Debug,
}

/// The text field that takes keystrokes, if any.
#[derive(PartialEq, Eq, Structural, Clone, Copy, Debug)]
pub enum Focus {
    NoField,
    Secret,
    SocksPort,
    HttpPort,
}

/// A key press, as far as the interface tells keys apart.
#[derive(PartialEq, Eq, Structural, Clone, Copy, Debug)]
pub enum Key {
    Char(char),
    Up,
    Down,
    Enter,
    Esc,
    Other,
}

/// The account level that the broker reports.
#[derive(PartialEq, Eq, Structural, Clone, Copy, Debug)]
pub enum AccountLevel {
    Free,
    Plus,
}

/// An exit region: its two-letter code and its English name.
#[derive(Clone, Debug)]
pub struct Country {
    pub alpha2: String,
    pub name: String,
}

/// The exit region of one open session.
#[derive(Clone, Debug)]
pub struct SessionExit {
    pub alpha2: String,
    pub name: String,
}

/// The connection state that the daemon reports.
#[derive(Clone, Debug)]
pub enum ConnState {
    Disconnected,
    Connecting,
    Connected { sessions: Vec<SessionExit> },
}

/// One news item from the broker.
#[derive(Clone, Debug)]
pub struct NewsItem {
    pub title: String,
    pub contents: String,
    pub important: bool,
}

/// The persisted preferences.
#[derive(Clone, Debug)]
pub struct TuiPrefs {
    pub secret: String,
    pub socks_port: String,
    pub http_port: String,
    pub listen_all: bool,
    pub selected_country: Option<String>,
    pub enable_debug_log: bool,
    pub allow_direct: bool,
    pub last_connected_secret: Option<String>,
}

/// The state of the interface, as plain values.
#[derive(Clone, Debug)]
pub struct TuiState {
    pub tab: Tab,
    pub focus: Focus,
    /// Text of the login-secret field.
    pub secret: String,
    /// Text of the SOCKS5 port field.
    pub socks_port: String,
    /// Text of the HTTP proxy port field.
    pub http_port: String,
    pub is_running: bool,
    pub last_connected_secret: Option<String>,
    pub needs_cache_clear: bool,
    pub level_notice: Option<String>,
    pub registration_idx: Option<usize>,
    pub registration_status: String,
    pub listen_all: bool,
    pub allow_direct: bool,
    /// The highlighted row of the region list.
    pub selected_index: Option<usize>,
    pub countries: Vec<Country>,
    pub selected_country: Option<String>,
    pub status_scroll: u16,
    pub debug_scroll: u16,
    pub debug_auto_scroll: bool,
    pub enable_debug_log: bool,
    pub global_vpn: bool,
    pub switch_in_progress: bool,
    pub last_switch_target: Option<String>,
    pub conn: ConnState,
    pub last_detected_level: AccountLevel,
    /// Seconds of Plus time left at the last check, when the broker gave an expiry.
    pub plus_secs_left: Option<u64>,
    pub news: Vec<NewsItem>,
}

/// The preferences that a state stands for.
pub open spec fn prefs_of(s: TuiState) -> TuiPrefs {
    TuiPrefs {
        secret: s.secret,
        socks_port: s.socks_port,
        http_port: s.http_port,
        listen_all: s.listen_all,
        selected_country: s.selected_country,
        enable_debug_log: s.enable_debug_log,
        allow_direct: s.allow_direct,
        last_connected_secret: s.last_connected_secret,
    }
}

pub fn clone_string(s: &String) -> (r: String)
    ensures
        r == *s,
{
    s.clone()
}

pub fn clone_opt_string(s: &Option<String>) -> (r: Option<String>)
    ensures
        r == *s,
{
    match s {
        Some(x) => Some(x.clone()),
        None => None,
    }
}

impl TuiState {
    /// The preferences that this state stands for.
    pub fn to_prefs(&self) -> (p: TuiPrefs)
        ensures
            p == prefs_of(*self),
    {
        TuiPrefs {
            secret: clone_string(&self.secret),
            socks_port: clone_string(&self.socks_port),
            http_port: clone_string(&self.http_port),
            listen_all: self.listen_all,
            selected_country: clone_opt_string(&self.selected_country),
            enable_debug_log: self.enable_debug_log,
            allow_direct: self.allow_direct,
            last_connected_secret: clone_opt_string(&self.last_connected_secret),
        }
    }

    /// The state the interface starts in, from saved preferences.
    pub fn from_prefs(p: TuiPrefs) -> (s: TuiState)
        ensures
            s.tab == Tab::Status,
            s.focus == Focus::NoField,
            s.secret == p.secret,
            s.socks_port == p.socks_port,
            s.http_port == p.http_port,
            !s.is_running,
            s.last_connected_secret == p.last_connected_secret,
            !s.needs_cache_clear,
            s.level_notice is None,
            s.registration_idx is None,
            s.registration_status@ == Seq::<char>::empty(),
            s.listen_all == p.listen_all,
            s.allow_direct == p.allow_direct,
            s.selected_index is None,
            s.countries@ == Seq::<Country>::empty(),
            s.selected_country == p.selected_country,
            s.status_scroll == 0,
            s.debug_scroll == 0,
            s.debug_auto_scroll,
            s.enable_debug_log == p.enable_debug_log,
            !s.global_vpn,
            !s.switch_in_progress,
            s.last_switch_target is None,
            s.conn is Disconnected,
            s.last_detected_level == AccountLevel::Free,
            s.plus_secs_left is None,
            s.news@ == Seq::<NewsItem>::empty(),
            prefs_of(s) == p,
    {
        TuiState {
            tab: Tab::Status,
            focus: Focus::NoField,
            secret: p.secret,
            socks_port: p.socks_port,
            http_port: p.http_port,
            is_running: false,
            last_connected_secret: p.last_connected_secret,
            needs_cache_clear: false,
            level_notice: None,
            registration_idx: None,
            registration_status: String::new(),
            listen_all: p.listen_all,
            allow_direct: p.allow_direct,
            selected_index: None,
            countries: Vec::new(),
            selected_country: p.selected_country,
            status_scroll: 0,
            debug_scroll: 0,
            debug_auto_scroll: true,
            enable_debug_log: p.enable_debug_log,
            global_vpn: false,
            switch_in_progress: false,
            last_switch_target: None,
            conn: ConnState::Disconnected,
            last_detected_level: AccountLevel::Free,
            plus_secs_left: None,
            news: Vec::new(),
        }
    }
}

} // verus!
