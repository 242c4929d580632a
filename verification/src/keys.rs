use vstd::prelude::*;

use crate::model::{
    clone_string, prefs_of, Focus, Key, Tab, TuiPrefs, TuiState,
};

verus! {

/// What the caller has to do after a key press in the normal (unfocused) mode.
#[derive(Clone, Debug)]
pub enum KeyAction {
    /// Nothing beyond the state change.
    Nothing,
    /// Leave the interface.
    Quit,
    /// Clear the connection-token cache when asked, save `prefs`, start the daemon.
    StartDaemon { clear_token_cache: bool, prefs: TuiPrefs },
    /// Ask the daemon to stop.
    StopDaemon,
    /// Start the daemon with `prefs`; then report with `daemon_started_for_registration`.
    StartDaemonThenRegister { prefs: TuiPrefs },
    /// Ask the daemon to start a registration; then report with `registration_started`.
    StartRegistration,
}

/// What a key press does while a text field has the focus.
#[derive(PartialEq, Eq, Structural, Clone, Copy, Debug)]
pub enum FocusedAction {
    /// The field lost the focus.
    Leave,
    /// Hand the key to the login-secret field.
    FeedSecret,
    /// Hand the key to the SOCKS5 port field.
    FeedSocksPort,
    /// Hand the key to the HTTP port field.
    FeedHttpPort,
    /// No field takes it.
    Ignore,
}

/// `n - 1`, or 0 when `n` is 0.
pub open spec fn sat_pred(n: nat) -> nat {
    if n >= 1 { (n - 1) as nat } else { 0 }
}

/// The row that Down moves the region list to.
pub open spec fn next_row(sel: Option<usize>, len: nat) -> usize {
    match sel {
        Some(i) => if i >= sat_pred(len) { 0 } else { (i + 1) as usize },
        None => 0,
    }
}

/// The row that Up moves the region list to.
pub open spec fn prev_row(sel: Option<usize>, len: nat) -> usize {
    match sel {
        Some(i) => if i == 0 { sat_pred(len) as usize } else { (i - 1) as usize },
        None => 0,
    }
}

/// The furthest the debug log can be scrolled by key, for `log_count` lines.
pub open spec fn debug_key_max_scroll(log_count: nat) -> u16 {
    sat_pred(log_count) as u16
}

/// An optional string by its characters.
pub open spec fn opt_chars(o: Option<String>) -> Option<Seq<char>> {
    match o {
        Some(s) => Some(s@),
        None => None,
    }
}

/// Whether connecting now must first clear the connection-token cache: the
/// secret differs from the one last connected with, or a clear was requested.
pub open spec fn must_clear_cache(s: TuiState) -> bool {
    opt_chars(s.last_connected_secret) != Some(s.secret@) || s.needs_cache_clear
}

/// The effect of `s` (start) while the daemon is not running.
pub open spec fn start_step(s: TuiState) -> (TuiState, KeyAction) {
    let clear = must_clear_cache(s);
    let s1 = if clear {
        TuiState { needs_cache_clear: false, level_notice: None, ..s }
    } else {
        s
    };
    let s2 = TuiState { last_connected_secret: Some(s.secret), ..s1 };
    (s2, KeyAction::StartDaemon { clear_token_cache: clear, prefs: prefs_of(s2) })
}

/// The effect of a character key in the normal mode.
pub open spec fn char_step(s: TuiState, c: char) -> (TuiState, KeyAction) {
    let config = s.tab == Tab::Config;
    if c == 'q' {
        (s, KeyAction::Quit)
    } else if c == '1' {
        (TuiState { tab: Tab::Status, ..s }, KeyAction::Nothing)
    } else if c == '2' {
        (TuiState { tab: Tab::Nodes, ..s }, KeyAction::Nothing)
    } else if c == '3' {
        (TuiState { tab: Tab::Config, ..s }, KeyAction::Nothing)
    } else if c == '4' {
        (TuiState { tab: Tab::Debug, ..s }, KeyAction::Nothing)
    } else if c == 's' {
        if !s.is_running { start_step(s) } else { (s, KeyAction::Nothing) }
    } else if c == 'x' {
        (s, if s.is_running { KeyAction::StopDaemon } else { KeyAction::Nothing })
    } else if c == 'e' && config {
        (TuiState { focus: Focus::Secret, ..s }, KeyAction::Nothing)
    } else if c == 'p' && config {
        (TuiState { focus: Focus::SocksPort, ..s }, KeyAction::Nothing)
    } else if c == 'h' && config {
        (TuiState { focus: Focus::HttpPort, ..s }, KeyAction::Nothing)
    } else if c == 'r' && config {
        (s, if s.is_running {
            KeyAction::StartRegistration
        } else {
            KeyAction::StartDaemonThenRegister { prefs: prefs_of(s) }
        })
    } else if c == 'l' && config {
        (TuiState { listen_all: !s.listen_all, ..s }, KeyAction::Nothing)
    } else if c == 'b' && config {
        (TuiState { allow_direct: !s.allow_direct, ..s }, KeyAction::Nothing)
    } else if c == 'a' && s.tab == Tab::Nodes {
        (TuiState { selected_country: None, ..s }, KeyAction::Nothing)
    } else if c == 'j' && s.tab == Tab::Status {
        let v = if s.status_scroll < u16::MAX { (s.status_scroll + 1) as u16 } else { u16::MAX };
        (TuiState { status_scroll: v, ..s }, KeyAction::Nothing)
    } else if c == 'k' && s.tab == Tab::Status {
        let v = if s.status_scroll > 0 { (s.status_scroll - 1) as u16 } else { 0 };
        (TuiState { status_scroll: v, ..s }, KeyAction::Nothing)
    } else if c == 'd' && s.tab == Tab::Debug {
        (TuiState { enable_debug_log: !s.enable_debug_log, ..s }, KeyAction::Nothing)
    } else {
        (s, KeyAction::Nothing)
    }
}

/// The effect of Down in the debug tab: one line further, at most to the
/// last log line; reaching that line turns following the log back on.
pub open spec fn debug_down_step(s: TuiState, log_count: nat) -> TuiState {
    let max = debug_key_max_scroll(log_count);
    let v = if s.debug_scroll + 1 <= max { (s.debug_scroll + 1) as u16 } else { max };
    TuiState { debug_scroll: v, debug_auto_scroll: if v >= max { true } else { s.debug_auto_scroll }, ..s }
}

/// The effect of a key press in the normal mode: the next state and what the
/// caller has to do. `log_count` is the number of debug log lines.
pub open spec fn global_key_step(s: TuiState, key: Key, log_count: nat) -> (TuiState, KeyAction) {
    let len = s.countries@.len();
    match key {
        Key::Char(c) => char_step(s, c),
        Key::Down => if s.tab == Tab::Nodes {
            (TuiState { selected_index: Some(next_row(s.selected_index, len)), ..s }, KeyAction::Nothing)
        } else if s.tab == Tab::Debug {
            (debug_down_step(s, log_count), KeyAction::Nothing)
        } else {
            (s, KeyAction::Nothing)
        },
        Key::Up => if s.tab == Tab::Nodes {
            (TuiState { selected_index: Some(prev_row(s.selected_index, len)), ..s }, KeyAction::Nothing)
        } else if s.tab == Tab::Debug {
            let v = if s.debug_scroll > 0 { (s.debug_scroll - 1) as u16 } else { 0 };
            (TuiState { debug_scroll: v, debug_auto_scroll: false, ..s }, KeyAction::Nothing)
        } else {
            (s, KeyAction::Nothing)
        },
        Key::Enter => if s.tab == Tab::Nodes {
            match s.selected_index {
                Some(i) => if i < len {
                    (TuiState { selected_country: Some(s.countries@[i as int].alpha2), ..s }, KeyAction::Nothing)
                } else {
                    (s, KeyAction::Nothing)
                },
                None => (s, KeyAction::Nothing),
            }
        } else {
            (s, KeyAction::Nothing)
        },
        _ => (s, KeyAction::Nothing),
    }
}

/// The effect of a key press while a text field has the focus.
pub open spec fn focused_key_step(s: TuiState, key: Key) -> (TuiState, FocusedAction) {
    if key == Key::Esc || key == Key::Enter {
        (TuiState { focus: Focus::NoField, ..s }, FocusedAction::Leave)
    } else {
        (s, match s.focus {
            Focus::Secret => FocusedAction::FeedSecret,
            Focus::SocksPort => FocusedAction::FeedSocksPort,
            Focus::HttpPort => FocusedAction::FeedHttpPort,
            Focus::NoField => FocusedAction::Ignore,
        })
    }
}

/// Whether a key press in the normal mode stays clear of the one input on
/// which it overflows: Down in the debug tab at the largest scroll offset.
pub open spec fn key_in_range(s: TuiState, key: Key) -> bool {
    s.tab == Tab::Debug && key == Key::Down ==> s.debug_scroll < u16::MAX
}

/// Whether a key press in the normal mode stays clear of the overflow that
/// `key_in_range` excludes.
pub fn key_fits(state: &TuiState, key: Key) -> (r: bool)
    ensures
        r == key_in_range(*state, key),
{
    !(state.tab == Tab::Debug && key == Key::Down) || state.debug_scroll < u16::MAX
}

/// Whether a key press goes to the focused text field (rather than to the
/// normal-mode handler): some field has the focus.
pub fn key_goes_to_field(state: &TuiState) -> (r: bool)
    ensures
        r == (state.focus != Focus::NoField),
{
    state.focus != Focus::NoField
}

/// The row that Down moves the region list to.
pub fn next_row_exec(sel: Option<usize>, len: usize) -> (r: usize)
    ensures
        r == next_row(sel, len as nat),
{
    match sel {
        Some(i) => if i >= len.saturating_sub(1) { 0 } else { i + 1 },
        None => 0,
    }
}

/// The row that Up moves the region list to.
pub fn prev_row_exec(sel: Option<usize>, len: usize) -> (r: usize)
    ensures
        r == prev_row(sel, len as nat),
{
    match sel {
        Some(i) => if i == 0 { len.saturating_sub(1) } else { i - 1 },
        None => 0,
    }
}

/// Handles a key press while a text field has the focus: Esc and Enter leave
/// the field, other keys go to the focused field.
pub fn handle_focused_input(state: &mut TuiState, key: Key) -> (action: FocusedAction)
    ensures
        (*final(state), action) == focused_key_step(*old(state), key),
{
    match key {
        Key::Esc | Key::Enter => {
            state.focus = Focus::NoField;
            FocusedAction::Leave
        },
        _ => match state.focus {
            Focus::Secret => FocusedAction::FeedSecret,
            Focus::SocksPort => FocusedAction::FeedSocksPort,
            Focus::HttpPort => FocusedAction::FeedHttpPort,
            Focus::NoField => FocusedAction::Ignore,
        },
    }
}

/// The effect of `s` (start) while the daemon is not running.
fn start_key(state: &mut TuiState) -> (action: KeyAction)
    requires
        !old(state).is_running,
    ensures
        (*final(state), action) == start_step(*old(state)),
{
    let current_secret = clone_string(&state.secret);
    let secret_changed = match &state.last_connected_secret {
        Some(last) => *last != current_secret,
        None => true,
    };
    let clear = secret_changed || state.needs_cache_clear;
    if clear {
        state.needs_cache_clear = false;
        state.level_notice = None;
    }
    state.last_connected_secret = Some(current_secret);
    let prefs = state.to_prefs();
    KeyAction::StartDaemon { clear_token_cache: clear, prefs }
}

/// Handles a character key in the normal mode.
fn char_key(state: &mut TuiState, c: char) -> (action: KeyAction)
    ensures
        (*final(state), action) == char_step(*old(state), c),
        old(state).tab != Tab::Config && (c == 'b' || c == 'l') ==> *final(state) == *old(state) && action is Nothing,
{
    proof {
        law_tab_keys(*old(state), 0);
    }
    let config = state.tab == Tab::Config;
    if c == 'q' {
        KeyAction::Quit
    } else if c == '1' {
        state.tab = Tab::Status;
        KeyAction::Nothing
    } else if c == '2' {
        state.tab = Tab::Nodes;
        KeyAction::Nothing
    } else if c == '3' {
        state.tab = Tab::Config;
        KeyAction::Nothing
    } else if c == '4' {
        state.tab = Tab::Debug;
        KeyAction::Nothing
    } else if c == 's' {
        if !state.is_running {
            start_key(state)
        } else {
            KeyAction::Nothing
        }
    } else if c == 'x' {
        if state.is_running { KeyAction::StopDaemon } else { KeyAction::Nothing }
    } else if c == 'e' && config {
        state.focus = Focus::Secret;
        KeyAction::Nothing
    } else if c == 'p' && config {
        state.focus = Focus::SocksPort;
        KeyAction::Nothing
    } else if c == 'h' && config {
        state.focus = Focus::HttpPort;
        KeyAction::Nothing
    } else if c == 'r' && config {
        if state.is_running {
            KeyAction::StartRegistration
        } else {
            KeyAction::StartDaemonThenRegister { prefs: state.to_prefs() }
        }
    } else if c == 'l' && config {
        state.listen_all = !state.listen_all;
        KeyAction::Nothing
    } else if c == 'b' && config {
        state.allow_direct = !state.allow_direct;
        KeyAction::Nothing
    } else if c == 'a' && state.tab == Tab::Nodes {
        state.selected_country = None;
        KeyAction::Nothing
    } else if c == 'j' && state.tab == Tab::Status {
        state.status_scroll = state.status_scroll.saturating_add(1);
        KeyAction::Nothing
    } else if c == 'k' && state.tab == Tab::Status {
        state.status_scroll = state.status_scroll.saturating_sub(1);
        KeyAction::Nothing
    } else if c == 'd' && state.tab == Tab::Debug {
        state.enable_debug_log = !state.enable_debug_log;
        KeyAction::Nothing
    } else {
        KeyAction::Nothing
    }
}

/// Handles Down in the debug tab.
fn debug_down_key(state: &mut TuiState, log_count: usize)
    requires
        old(state).debug_scroll < u16::MAX,
    ensures
        *final(state) == debug_down_step(*old(state), log_count as nat),
{
    let max_scroll = #[verifier::truncate] (log_count.saturating_sub(1) as u16);
    let next = state.debug_scroll + 1;
    state.debug_scroll = if next <= max_scroll { next } else { max_scroll };
    if state.debug_scroll >= max_scroll {
        state.debug_auto_scroll = true;
    }
}

/// Handles Enter in the region tab: the highlighted region becomes the exit.
fn enter_key(state: &mut TuiState)
    requires
        old(state).tab == Tab::Nodes,
    ensures
        (*final(state), KeyAction::Nothing) == global_key_step(*old(state), Key::Enter, 0),
{
    if let Some(i) = state.selected_index {
        if i < state.countries.len() {
            state.selected_country = Some(clone_string(&state.countries[i].alpha2));
        }
    }
}

/// Each tab's own keys work only in that tab: elsewhere they change nothing
/// and ask for nothing. In the configuration tab `l` and `b` flip only the
/// listen-all and direct-mode switches, and `d` in the debug tab only the
/// debug log switch.
pub proof fn law_tab_keys(s: TuiState, log_count: nat)
    ensures
        s.tab != Tab::Config ==> global_key_step(s, Key::Char('b'), log_count) == (s, KeyAction::Nothing),
        s.tab != Tab::Config ==> global_key_step(s, Key::Char('l'), log_count) == (s, KeyAction::Nothing),
        s.tab != Tab::Config ==> global_key_step(s, Key::Char('e'), log_count) == (s, KeyAction::Nothing),
        s.tab != Tab::Config ==> global_key_step(s, Key::Char('p'), log_count) == (s, KeyAction::Nothing),
        s.tab != Tab::Config ==> global_key_step(s, Key::Char('h'), log_count) == (s, KeyAction::Nothing),
        s.tab != Tab::Config ==> global_key_step(s, Key::Char('r'), log_count) == (s, KeyAction::Nothing),
        s.tab != Tab::Nodes ==> global_key_step(s, Key::Char('a'), log_count) == (s, KeyAction::Nothing),
        s.tab != Tab::Status ==> global_key_step(s, Key::Char('j'), log_count) == (s, KeyAction::Nothing),
        s.tab != Tab::Status ==> global_key_step(s, Key::Char('k'), log_count) == (s, KeyAction::Nothing),
        s.tab != Tab::Debug ==> global_key_step(s, Key::Char('d'), log_count) == (s, KeyAction::Nothing),
        s.tab == Tab::Config ==> global_key_step(s, Key::Char('b'), log_count)
            == (TuiState { allow_direct: !s.allow_direct, ..s }, KeyAction::Nothing),
        s.tab == Tab::Config ==> global_key_step(s, Key::Char('l'), log_count)
            == (TuiState { listen_all: !s.listen_all, ..s }, KeyAction::Nothing),
        s.tab == Tab::Debug ==> global_key_step(s, Key::Char('d'), log_count)
            == (TuiState { enable_debug_log: !s.enable_debug_log, ..s }, KeyAction::Nothing),
{
}

/// Handles a key press in the normal mode. `log_count` is the number of debug
/// log lines. Returns what the caller has to do next.
pub fn handle_global_key(state: &mut TuiState, key: Key, log_count: usize) -> (action: KeyAction)
    requires
        key_in_range(*old(state), key),
    ensures
        (*final(state), action) == global_key_step(*old(state), key, log_count as nat),
        old(state).tab != Tab::Config && (key == Key::Char('b') || key == Key::Char('l'))
            ==> *final(state) == *old(state) && action is Nothing,
        old(state).tab == Tab::Config && key == Key::Char('b')
            ==> *final(state) == (TuiState { allow_direct: !old(state).allow_direct, ..*old(state) }),
        old(state).tab == Tab::Config && key == Key::Char('l')
            ==> *final(state) == (TuiState { listen_all: !old(state).listen_all, ..*old(state) }),
{
    proof {
        law_tab_keys(*old(state), log_count as nat);
    }
    match key {
        Key::Char(c) => char_key(state, c),
        Key::Down => {
            if state.tab == Tab::Nodes {
                let i = next_row_exec(state.selected_index, state.countries.len());
                state.selected_index = Some(i);
            } else if state.tab == Tab::Debug {
                debug_down_key(state, log_count);
            }
            KeyAction::Nothing
        },
        Key::Up => {
            if state.tab == Tab::Nodes {
                let i = prev_row_exec(state.selected_index, state.countries.len());
                state.selected_index = Some(i);
            } else if state.tab == Tab::Debug {
                state.debug_scroll = state.debug_scroll.saturating_sub(1);
                state.debug_auto_scroll = false;
            }
            KeyAction::Nothing
        },
        Key::Enter => {
            if state.tab == Tab::Nodes {
                enter_key(state);
            }
            KeyAction::Nothing
        },
        _ => KeyAction::Nothing,
    }
}

/// Where a key press went and what the caller has to do next.
#[derive(Clone, Debug)]
pub enum Routed {
    /// A text field had the focus: the field handler took the key.
    Field(FocusedAction),
    /// No field had the focus: the normal-mode handler took the key.
    Normal(KeyAction),
}

/// The effect of a key press: to the focused text field when a field has the
/// focus, to the normal-mode handler otherwise.
pub open spec fn route_step(s: TuiState, key: Key, log_count: nat) -> (TuiState, Routed) {
    if s.focus != Focus::NoField {
        (focused_key_step(s, key).0, Routed::Field(focused_key_step(s, key).1))
    } else {
        (global_key_step(s, key, log_count).0, Routed::Normal(global_key_step(s, key, log_count).1))
    }
}

/// Handles a key press: the focused text field takes it when a field has the
/// focus, the normal-mode handler otherwise. `log_count` is the number of
/// debug log lines.
pub fn route_key(state: &mut TuiState, key: Key, log_count: usize) -> (r: Routed)
    requires
        old(state).focus == Focus::NoField ==> key_in_range(*old(state), key),
    ensures
        (*final(state), r) == route_step(*old(state), key, log_count as nat),
{
    if key_goes_to_field(state) {
        Routed::Field(handle_focused_input(state, key))
    } else {
        Routed::Normal(handle_global_key(state, key, log_count))
    }
}

/// Key routing: only `q` in the normal mode quits. While a field has the focus
/// every key, `q` included, goes to the field, which changes at most the focus
/// and never starts, stops or registers anything.
pub proof fn law_route_quits_only_on_q(s: TuiState, key: Key, log_count: nat)
    ensures
        (route_step(s, key, log_count).1 == Routed::Normal(KeyAction::Quit))
            <==> (s.focus == Focus::NoField && key == Key::Char('q')),
        s.focus != Focus::NoField ==> route_step(s, key, log_count).1 is Field,
        s.focus != Focus::NoField ==> route_step(s, key, log_count).0
            == (TuiState { focus: route_step(s, key, log_count).0.focus, ..s }),
        s.focus == Focus::NoField ==> route_step(s, key, log_count).1 is Normal,
{
}

/// The answer to a control call: the daemon's value, its refusal, or a failed call.
#[derive(Clone, Debug)]
pub enum RpcReply<T> {
    Done(T),
    Refused(String),
    Failed(String),
}

/// After `StartDaemonThenRegister`: `outcome` is `Ok` with whether the daemon
/// now answers, or `Err` with the start error's text. Returns whether to go on
/// with `StartRegistration`.
pub fn daemon_started_for_registration(state: &mut TuiState, outcome: Result<bool, String>) -> (go_on: bool)
    ensures
        go_on == (outcome is Ok),
        match outcome {
            Ok(running) => *final(state) == (TuiState { is_running: running, ..*old(state) }),
            Err(msg) => *final(state) == (TuiState {
                registration_status: final(state).registration_status,
                ..*old(state)
            }) && final(state).registration_status@ == "Daemon failed to start: "@ + msg@,
        },
{
    match outcome {
        Ok(running) => {
            state.is_running = running;
            true
        },
        Err(msg) => {
            state.registration_status = String::from_str("Daemon failed to start: ").concat(msg.as_str());
            false
        },
    }
}

/// After `StartRegistration`: records the registration handle, or why there is none.
pub fn registration_started(state: &mut TuiState, reply: RpcReply<usize>)
    ensures
        match reply {
            RpcReply::Done(idx) => *final(state) == (TuiState {
                registration_idx: Some(idx),
                registration_status: final(state).registration_status,
                ..*old(state)
            }) && final(state).registration_status@ == "Registration started..."@,
            RpcReply::Refused(msg) => *final(state) == (TuiState {
                registration_status: final(state).registration_status,
                ..*old(state)
            }) && final(state).registration_status@ == "Failed to start: "@ + msg@,
            RpcReply::Failed(msg) => *final(state) == (TuiState {
                registration_status: final(state).registration_status,
                ..*old(state)
            }) && final(state).registration_status@ == "RPC error: "@ + msg@,
        },
{
    match reply {
        RpcReply::Done(idx) => {
            state.registration_idx = Some(idx);
            state.registration_status = String::from_str("Registration started...");
        },
        RpcReply::Refused(msg) => {
            state.registration_status = String::from_str("Failed to start: ").concat(msg.as_str());
        },
        RpcReply::Failed(msg) => {
            state.registration_status = String::from_str("RPC error: ").concat(msg.as_str());
        },
    }
}

/// Down and Up undo each other on the region list: from a highlighted row in
/// range, Down then Up, and Up then Down, come back to it.
pub proof fn law_region_rows_inverse(i: usize, len: usize)
    requires
        i < len,
    ensures
        prev_row(Some(next_row(Some(i), len as nat)), len as nat) == i,
        next_row(Some(prev_row(Some(i), len as nat)), len as nat) == i,
{
}

/// Moving through a non-empty region list keeps the highlighted row on the list.
pub proof fn law_region_row_in_range(sel: Option<usize>, len: usize)
    requires
        len > 0,
        sel matches Some(i) ==> i < len,
    ensures
        next_row(sel, len as nat) < len,
        prev_row(sel, len as nat) < len,
{
}

/// In the region tab, Down then Up leaves the state as it was, when the
/// highlighted row is on the list.
pub proof fn law_down_then_up_restores(s: TuiState, log_count: nat)
    requires
        s.tab == Tab::Nodes,
        s.selected_index matches Some(i) && i < s.countries@.len(),
        s.countries@.len() <= usize::MAX,
    ensures
        global_key_step(global_key_step(s, Key::Down, log_count).0, Key::Up, log_count).0 == s,
{
    let i = s.selected_index.unwrap();
    let len = s.countries@.len();
    let s1 = global_key_step(s, Key::Down, log_count).0;
    let j = next_row(Some(i), len);
    assert(s1 == (TuiState { selected_index: Some(j), ..s }));
    if i >= sat_pred(len) {
        assert(j == 0);
        assert(prev_row(Some(j), len) == i);
    } else {
        assert(j == i + 1);
        assert(prev_row(Some(j), len) == i);
    }
    let s2 = global_key_step(s1, Key::Up, log_count).0;
    assert(s2 == (TuiState { selected_index: Some(i), ..s }));
}

/// Each toggle key, pressed twice, leaves the state as it was.
pub proof fn law_toggle_twice(s: TuiState, c: char, log_count: nat)
    requires
        (s.tab == Tab::Config && (c == 'l' || c == 'b')) || (s.tab == Tab::Debug && c == 'd'),
    ensures
        global_key_step(global_key_step(s, Key::Char(c), log_count).0, Key::Char(c), log_count).0 == s,
{
}

/// Opening a text field for editing and leaving it with Esc or Enter leaves
/// the state as it was.
pub proof fn law_edit_round_trip(s: TuiState, c: char, leave: Key, log_count: nat)
    requires
        s.tab == Tab::Config,
        s.focus == Focus::NoField,
        c == 'e' || c == 'p' || c == 'h',
        leave == Key::Esc || leave == Key::Enter,
    ensures
        focused_key_step(global_key_step(s, Key::Char(c), log_count).0, leave).0 == s,
        global_key_step(s, Key::Char(c), log_count).1 == KeyAction::Nothing,
{
}

/// A key that goes to a text field leaves the state unchanged; only Esc and
/// Enter change it, and they only clear the focus.
pub proof fn law_focused_changes_only_focus(s: TuiState, key: Key)
    ensures
        focused_key_step(s, key).0 == (TuiState { focus: focused_key_step(s, key).0.focus, ..s }),
        (key == Key::Esc || key == Key::Enter) <==> focused_key_step(s, key).1 == FocusedAction::Leave,
        focused_key_step(s, key).1 == FocusedAction::Leave ==> focused_key_step(s, key).0.focus == Focus::NoField,
{
}

/// Starting connects with the current secret: afterwards the state records it
/// as the last connected one and no cache clear is pending, so a second start
/// with the same secret does not clear the connection-token cache again.
pub proof fn law_start_records_secret(s: TuiState)
    requires
        !s.is_running,
    ensures
        start_step(s).0.last_connected_secret == Some(s.secret),
        !start_step(s).0.needs_cache_clear,
        !must_clear_cache(start_step(s).0),
        start_step(s).1 == (KeyAction::StartDaemon {
            clear_token_cache: must_clear_cache(s),
            prefs: prefs_of(start_step(s).0),
        }),
{
}

/// Keys in the normal mode never change the text of the fields, whether the
/// daemon runs, or the region list; quitting changes nothing at all.
pub proof fn law_keys_keep_fields(s: TuiState, key: Key, log_count: nat)
    ensures
        global_key_step(s, key, log_count).0.secret == s.secret,
        global_key_step(s, key, log_count).0.socks_port == s.socks_port,
        global_key_step(s, key, log_count).0.http_port == s.http_port,
        global_key_step(s, key, log_count).0.is_running == s.is_running,
        global_key_step(s, key, log_count).0.countries == s.countries,
        key == Key::Char('q') ==> global_key_step(s, key, log_count) == (s, KeyAction::Quit),
{
}

/// In the status tab, `j` then `k` scrolls back to where it was, below the top offset.
pub proof fn law_status_scroll_round_trip(s: TuiState, log_count: nat)
    requires
        s.tab == Tab::Status,
        s.status_scroll < u16::MAX,
    ensures
        global_key_step(global_key_step(s, Key::Char('j'), log_count).0, Key::Char('k'), log_count).0 == s,
{
}

} // verus!
