use vstd::prelude::*;

use crate::exits::{exits_for_level, region_list, Exit};
use crate::keys::RpcReply;
use crate::model::{AccountLevel, ConnState, NewsItem, TuiPrefs, TuiState};
use crate::text::{contains_text, str_contains};

verus! {

/// The notice shown when the account turns Plus.
pub open spec fn plus_notice() -> Seq<char> {
    "VIP detected! Press x then s to reconnect with VIP access."@
}

/// The notice shown when Plus time has run out.
pub open spec fn free_notice() -> Seq<char> {
    "VIP expired. Press x then s to reconnect."@
}

/// The notice shown when a new account was registered while connected.
pub open spec fn registered_notice() -> Seq<char> {
    "New account registered. Press 'x' then 's' to reconnect."@
}

/// An optional string by its characters.
pub open spec fn text_of(o: Option<String>) -> Option<Seq<char>> {
    match o {
        Some(s) => Some(s@),
        None => None,
    }
}

/// The account level that an expiry time gives at `now`: Plus while the
/// expiry lies in the future, Free otherwise or without an expiry.
pub open spec fn level_at(expiry: Option<u64>, now: u64) -> AccountLevel {
    if (match expiry { Some(e) => e, None => 0 }) > now { AccountLevel::Plus } else { AccountLevel::Free }
}

/// Seconds left until `expiry`, or 0 once it has passed.
pub open spec fn secs_left(expiry: Option<u64>, now: u64) -> Option<u64> {
    match expiry {
        Some(e) => Some(if e >= now { (e - now) as u64 } else { 0 }),
        None => None,
    }
}

/// Records whether the daemon answers and, when it does and the connection
/// query succeeded, its connection state; a daemon that does not answer is
/// disconnected.
pub fn apply_daemon_probe(state: &mut TuiState, running: bool, conn: Option<ConnState>)
    ensures
        final(state).is_running == running,
        final(state).conn == (if running {
            match conn { Some(c) => c, None => old(state).conn }
        } else {
            ConnState::Disconnected
        }),
        *final(state) == (TuiState { is_running: final(state).is_running, conn: final(state).conn, ..*old(state) }),
{
    state.is_running = running;
    if running {
        if let Some(c) = conn {
            state.conn = c;
        }
    } else {
        state.conn = ConnState::Disconnected;
    }
}

/// Whether to start the daemon when the interface opens: an account secret is
/// saved and the daemon does not answer yet.
pub fn autostart_due(prefs: &TuiPrefs, running: bool) -> (r: bool)
    ensures
        r == (prefs.secret@.len() > 0 && !running),
{
    prefs.secret.unicode_len() > 0 && !running
}

/// Whether to ask the broker for the account's details now: the daemon runs
/// and a secret is entered.
pub fn wants_user_info(state: &TuiState) -> (r: bool)
    ensures
        r == (state.is_running && state.secret@.len() > 0),
{
    state.is_running && state.secret.unicode_len() > 0
}

/// `n` is `o` after taking in the account details `info` at `now`, with
/// `level` the level to filter exits by. While the daemon runs, the level
/// follows the answer (or stays as detected without one), and a change of level
/// asks for a cache clear and shows a notice; otherwise nothing changes.
pub open spec fn user_info_applied(o: TuiState, n: TuiState, info: Option<Option<u64>>, now: u64, level: AccountLevel) -> bool {
    if !o.is_running {
        n == o && level == o.last_detected_level
    } else {
        &&& level == (match info {
            Some(expiry) => level_at(expiry, now),
            None => o.last_detected_level,
        })
        &&& n.plus_secs_left == (match info {
            Some(expiry) => secs_left(expiry, now),
            None => o.plus_secs_left,
        })
        &&& n.last_detected_level == level
        &&& if level != o.last_detected_level {
            &&& n.needs_cache_clear
            &&& text_of(n.level_notice) == Some(
                if level == AccountLevel::Plus { plus_notice() } else { free_notice() })
        } else {
            &&& n.needs_cache_clear == o.needs_cache_clear
            &&& n.level_notice == o.level_notice
        }
        &&& n == (TuiState {
            plus_secs_left: n.plus_secs_left,
            last_detected_level: n.last_detected_level,
            needs_cache_clear: n.needs_cache_clear,
            level_notice: n.level_notice,
            ..o
        })
    }
}

/// How the account details decide the level: without an answer the level
/// stays as last detected and nothing changes; with an answer (while the
/// daemon runs) the account is Plus exactly when its expiry lies after `now`,
/// and Free without an expiry; while the daemon is stopped nothing changes.
pub proof fn law_user_info_levels(o: TuiState, n: TuiState, info: Option<Option<u64>>, now: u64, level: AccountLevel)
    requires
        user_info_applied(o, n, info, now, level),
    ensures
        info is None ==> level == o.last_detected_level && n == o,
        !o.is_running ==> level == o.last_detected_level && n == o,
        o.is_running ==> (info matches Some(Some(e)) ==> (level == AccountLevel::Plus <==> e > now)),
        o.is_running && info == Some(None::<u64>) ==> level == AccountLevel::Free,
        n.last_detected_level == level,
        (n.level_notice != o.level_notice || n.needs_cache_clear != o.needs_cache_clear)
            ==> level != o.last_detected_level,
{
}

/// Takes in the account details: `info` is `Some(expiry)` when the broker
/// answered with the account's Plus expiry (a Unix time, if any), `None`
/// otherwise. Returns the level to filter exits by.
pub fn apply_user_info(state: &mut TuiState, info: Option<Option<u64>>, now: u64) -> (level: AccountLevel)
    ensures
        user_info_applied(*old(state), *final(state), info, now, level),
        info is None ==> level == old(state).last_detected_level && *final(state) == *old(state),
        !old(state).is_running ==> level == old(state).last_detected_level && *final(state) == *old(state),
        old(state).is_running ==> (info matches Some(Some(e)) ==> (level == AccountLevel::Plus <==> e > now)),
        old(state).is_running && info == Some(None::<u64>) ==> level == AccountLevel::Free,
{
    let mut user_level = state.last_detected_level;
    if !state.is_running {
        proof {
            law_user_info_levels(*old(state), *state, info, now, user_level);
        }
        return user_level;
    }
    if let Some(expiry) = info {
        state.plus_secs_left = match expiry {
            Some(e) => Some(e.saturating_sub(now)),
            None => None,
        };
        let e = match expiry {
            Some(e) => e,
            None => 0,
        };
        user_level = if e > now { AccountLevel::Plus } else { AccountLevel::Free };
    }
    if user_level != state.last_detected_level {
        state.needs_cache_clear = true;
        state.level_notice = Some(match user_level {
            AccountLevel::Plus => String::from_str("VIP detected! Press x then s to reconnect with VIP access."),
            AccountLevel::Free => String::from_str("VIP expired. Press x then s to reconnect."),
        });
        state.last_detected_level = user_level;
    }
    proof {
        law_user_info_levels(*old(state), *state, info, now, user_level);
    }
    user_level
}

/// Replaces the region list with the regions the exits offer at `level`.
pub fn apply_exits(state: &mut TuiState, exits: &Vec<Exit>, level: AccountLevel)
    ensures
        region_list(exits@, level, final(state).countries@),
        *final(state) == (TuiState { countries: final(state).countries, ..*old(state) }),
{
    state.countries = exits_for_level(exits, level);
}

/// Whether to fetch the news now: none has been shown yet and the daemon runs.
pub fn wants_news(state: &TuiState) -> (r: bool)
    ensures
        r == (state.news@.len() == 0 && state.is_running),
{
    state.news.len() == 0 && state.is_running
}

/// Takes in fetched news.
pub fn apply_news(state: &mut TuiState, news: Vec<NewsItem>)
    ensures
        *final(state) == (TuiState { news: news, ..*old(state) }),
{
    state.news = news;
}

/// Whether a locale asks for Chinese text: its name contains `zh`; no locale
/// counts as the empty name.
pub open spec fn chinese_locale(locale: Option<String>) -> bool {
    match locale {
        Some(l) => contains_text(l@, "zh"@),
        None => contains_text(Seq::<char>::empty(), "zh"@),
    }
}

/// Whether `locale` asks for Chinese text.
pub fn is_chinese_locale(locale: &Option<String>) -> (r: bool)
    ensures
        r == chinese_locale(*locale),
{
    let r = match locale {
        Some(l) => str_contains(l.as_str(), "zh"),
        None => str_contains("", "zh"),
    };
    proof {
        reveal_strlit("zh");
        reveal_strlit("");
    }
    r
}

/// The language to ask for news in under `locale`: `zh` or `en`.
pub fn news_language_for(locale: &Option<String>) -> (r: &'static str)
    ensures
        r@ == (if chinese_locale(*locale) { "zh"@ } else { "en"@ }),
{
    if is_chinese_locale(locale) { "zh" } else { "en" }
}

/// Calls `sys_locale::get_locale`, which reads the locale of the system the
/// interface runs on (from the environment on Unix). Nothing is stated of the
/// result: it depends on the machine.
#[verifier::external_body]
fn system_locale() -> (r: Option<String>) {
    sys_locale::get_locale()
}

/// Reads the system's locale and decides from it whether to show Chinese
/// text: returns the locale read and that decision.
pub fn system_locale_choice() -> (r: (Option<String>, bool))
    ensures
        r.1 == chinese_locale(r.0),
{
    let locale = system_locale();
    let chinese = is_chinese_locale(&locale);
    (locale, chinese)
}

/// Whether the system's locale asks for Chinese text; what it returns depends
/// on the machine, through `is_chinese_locale` of the locale read (see
/// `system_locale_choice`, which also returns the locale).
pub fn system_prefers_chinese() -> (r: bool) {
    let (_, chinese) = system_locale_choice();
    chinese
}

/// The language to ask for news in under the system's locale: `zh` or `en`.
pub fn news_language() -> (r: &'static str)
    ensures
        r@ == "zh"@ || r@ == "en"@,
{
    let locale = system_locale();
    news_language_for(&locale)
}

/// A registration's progress as the daemon reports it: the new secret once
/// done, and the progress as percent text (one decimal) until then.
#[derive(Clone, Debug)]
pub struct RegistrationProgress {
    pub secret: Option<String>,
    pub percent_text: String,
}

/// The registration to poll now, if one runs.
pub fn registration_poll_due(state: &TuiState) -> (r: Option<usize>)
    ensures
        r == state.registration_idx,
{
    state.registration_idx
}

/// Takes in the answer to a registration poll. A finished registration puts the
/// new secret in place, forgets the Plus level, asks for a cache clear and, when
/// connected, tells the user to reconnect; an unfinished one shows its
/// progress; a refused one ends the registration; a failed call changes nothing.
pub fn apply_registration_poll(state: &mut TuiState, reply: RpcReply<RegistrationProgress>)
    ensures
        match reply {
            RpcReply::Done(p) => match p.secret {
                Some(sec) => {
                    &&& *final(state) == (TuiState {
                        secret: sec,
                        registration_status: final(state).registration_status,
                        registration_idx: None,
                        needs_cache_clear: true,
                        last_detected_level: AccountLevel::Free,
                        plus_secs_left: None,
                        level_notice: final(state).level_notice,
                        ..*old(state)
                    })
                    &&& final(state).registration_status@ == "Registration complete!"@
                    &&& text_of(final(state).level_notice) == (if old(state).is_running {
                        Some(registered_notice())
                    } else {
                        None
                    })
                },
                None => {
                    &&& *final(state) == (TuiState {
                        registration_status: final(state).registration_status,
                        ..*old(state)
                    })
                    &&& final(state).registration_status@ == "Registering... "@ + p.percent_text@ + "%"@
                },
            },
            RpcReply::Refused(msg) => {
                &&& *final(state) == (TuiState {
                    registration_status: final(state).registration_status,
                    registration_idx: None,
                    ..*old(state)
                })
                &&& final(state).registration_status@ == "Registration failed: "@ + msg@
            },
            RpcReply::Failed(_) => *final(state) == *old(state),
        },
{
    match reply {
        RpcReply::Done(p) => match p.secret {
            Some(sec) => {
                state.secret = sec;
                state.registration_status = String::from_str("Registration complete!");
                state.registration_idx = None;
                state.needs_cache_clear = true;
                state.last_detected_level = AccountLevel::Free;
                state.plus_secs_left = None;
                state.level_notice = if state.is_running {
                    Some(String::from_str("New account registered. Press 'x' then 's' to reconnect."))
                } else {
                    None
                };
            },
            None => {
                state.registration_status = String::from_str("Registering... ").concat(p.percent_text.as_str()).concat("%");
            },
        },
        RpcReply::Refused(msg) => {
            state.registration_status = String::from_str("Registration failed: ").concat(msg.as_str());
            state.registration_idx = None;
        },
        RpcReply::Failed(_) => {},
    }
}

/// Taking in the same account details twice changes nothing the second time:
/// the notice and the cache clear come once per change of level.
pub proof fn law_user_info_idempotent(
    s0: TuiState, s1: TuiState, s2: TuiState, info: Option<Option<u64>>, now: u64,
    l1: AccountLevel, l2: AccountLevel,
)
    requires
        user_info_applied(s0, s1, info, now, l1),
        user_info_applied(s1, s2, info, now, l2),
    ensures
        s2 == s1,
        l2 == l1,
{
}

/// A level notice appears exactly when the detected level changes.
pub proof fn law_notice_on_level_change(s0: TuiState, s1: TuiState, info: Option<Option<u64>>, now: u64, l: AccountLevel)
    requires
        user_info_applied(s0, s1, info, now, l),
        s0.level_notice is None,
    ensures
        (s1.level_notice is Some) <==> (s0.is_running && l != s0.last_detected_level),
{
}

} // verus!
