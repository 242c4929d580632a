use vstd::prelude::*;

use crate::model::{clone_string, AccountLevel, ConnState, Country, NewsItem, SessionExit, TuiState};
use crate::sessions::{busiest_first, group_sessions, groups_sessions, SessionGroup};
use crate::text::{decimal, decimal_text, lines_of, text_lines};

verus! {

/// The colour a piece of text is drawn in.
#[derive(PartialEq, Eq, Structural, Clone, Copy, Debug)]
pub enum Shade {
    Plain,
    Red,
    Yellow,
    Green,
    Cyan,
    Magenta,
    Gray,
    DarkGray,
}

/// A piece of text and its colour; a line is a sequence of pieces.
#[derive(Clone, Debug)]
pub struct Piece {
    pub text: String,
    pub shade: Shade,
}

/// A line by its pieces' characters and colours.
pub open spec fn line_view(l: Seq<Piece>) -> Seq<(Seq<char>, Shade)> {
    l.map_values(|p: Piece| (p.text@, p.shade))
}

/// Lines by their pieces' characters and colours.
pub open spec fn lines_view(ls: Seq<Vec<Piece>>) -> Seq<Seq<(Seq<char>, Shade)>> {
    ls.map_values(|l: Vec<Piece>| line_view(l@))
}

pub open spec fn blank_line() -> Seq<(Seq<char>, Shade)> {
    Seq::empty()
}

/// The label and colour of a connection state.
pub open spec fn conn_label(c: ConnState) -> (Seq<char>, Shade) {
    match c {
        ConnState::Disconnected => ("Disconnected"@, Shade::Red),
        ConnState::Connecting => ("Connecting..."@, Shade::Yellow),
        ConnState::Connected { .. } => ("Connected"@, Shade::Green),
    }
}

pub open spec fn or_auto(o: Option<String>) -> Seq<char> {
    match o {
        Some(s) => s@,
        None => "Auto"@,
    }
}

/// The first line of the status tab: daemon, network, exit, a switch in
/// progress, and the listen address.
pub open spec fn top_line(s: TuiState) -> Seq<(Seq<char>, Shade)> {
    let base = seq![
        ("Daemon: "@, Shade::Plain),
        if s.is_running { ("Running"@, Shade::Green) } else { ("Stopped"@, Shade::Red) },
        (" | Network: "@, Shade::Plain),
        conn_label(s.conn),
        (" | Exit: "@, Shade::Plain),
        (or_auto(s.selected_country), Shade::Cyan),
    ];
    let switching = if s.switch_in_progress {
        seq![(" (switching to "@ + or_auto(s.last_switch_target) + "...)"@, Shade::Yellow)]
    } else {
        Seq::empty()
    };
    base + switching + seq![
        (" | Listen: "@, Shade::Plain),
        if s.listen_all { ("0.0.0.0"@, Shade::Magenta) } else { ("127.0.0.1"@, Shade::Gray) },
    ]
}

/// "`prefix`CC (N session)" with an "s" when N is more than one.
pub open spec fn group_label(prefix: Seq<char>, g: SessionGroup) -> Seq<char> {
    prefix + g.alpha2@ + " ("@ + decimal_text(g.sessions as nat) + " session"@
        + (if g.sessions > 1 { "s"@ } else { ""@ }) + ")"@
}

/// The line that names the active region and the draining ones.
pub open spec fn drain_line(g: Seq<SessionGroup>) -> Seq<(Seq<char>, Shade)> {
    Seq::new(
        (2 * g.len() - 1) as nat,
        |p: int| if p == 0 {
            (group_label("Active: "@, g[0]), Shade::Green)
        } else if p % 2 == 1 {
            (" | "@, Shade::Plain)
        } else {
            (group_label("Draining: "@, g[p / 2]), Shade::DarkGray)
        },
    )
}

/// The sessions of a connection state.
pub open spec fn sessions_of(c: ConnState) -> Seq<SessionExit> {
    match c {
        ConnState::Connected { sessions } => sessions@,
        _ => Seq::empty(),
    }
}

/// The drain line, shown when sessions run through more than one region.
pub open spec fn drain_part(c: ConnState, g: Seq<SessionGroup>) -> Seq<Seq<(Seq<char>, Shade)>> {
    if c is Connected && g.len() > 1 { seq![drain_line(g)] } else { Seq::empty() }
}

/// The lines about a downloaded update, in Chinese or English.
pub open spec fn update_part(chinese: bool, update: Option<(String, String)>) -> Seq<Seq<(Seq<char>, Shade)>> {
    match update {
        Some((version, path)) => if chinese {
            seq![
                blank_line(),
                seq![("提示: 迷雾通新版本 ("@ + version@ + ") 的更新包已下载至:"@, Shade::Yellow)],
                seq![(path@, Shade::Yellow)],
                seq![("请您前往该目录手动处理此更新。"@, Shade::Yellow)],
            ]
        } else {
            seq![
                blank_line(),
                seq![("Notice: Update package for Geph ("@ + version@ + ") downloaded to:"@, Shade::Yellow)],
                seq![(path@, Shade::Yellow)],
                seq![("Please go to this directory and handle the update manually."@, Shade::Yellow)],
            ]
        },
        None => Seq::empty(),
    }
}

/// The days-left note of the Plus greeting.
pub open spec fn days_note(plus_days: Option<u64>) -> Seq<char> {
    match plus_days {
        Some(d) => " ("@ + decimal_text(d as nat) + " days left)"@,
        None => ""@,
    }
}

/// The level notice, or else the greeting for a Plus account.
pub open spec fn level_part(s: TuiState, chinese: bool, plus_days: Option<u64>) -> Seq<Seq<(Seq<char>, Shade)>> {
    match s.level_notice {
        Some(n) => seq![blank_line(), seq![(n@, Shade::Yellow)]],
        None => if s.last_detected_level == AccountLevel::Plus {
            let msg = if chinese {
                "欢迎，尊贵的 Plus 用户！"@ + days_note(plus_days)
            } else {
                "Welcome, Plus user!"@ + days_note(plus_days)
            };
            seq![blank_line(), seq![(msg, Shade::Green)]]
        } else {
            Seq::empty()
        },
    }
}

/// The lines of one news item: a blank line, the marked title, the contents.
pub open spec fn news_item_lines(item: NewsItem) -> Seq<Seq<(Seq<char>, Shade)>> {
    seq![
        blank_line(),
        if item.important {
            seq![("[!] "@ + item.title@, Shade::Red)]
        } else {
            seq![("[*] "@ + item.title@, Shade::Cyan)]
        },
    ] + lines_of(item.contents@).map_values(|l: Seq<char>| seq![(l, Shade::Gray)])
}

/// The lines of the news items, in order.
pub open spec fn news_part(news: Seq<NewsItem>) -> Seq<Seq<(Seq<char>, Shade)>>
    decreases news.len(),
{
    if news.len() == 0 {
        Seq::empty()
    } else {
        news_part(news.drop_last()) + news_item_lines(news.last())
    }
}

/// All lines of the status tab, given the session groups.
pub open spec fn status_lines(
    s: TuiState,
    g: Seq<SessionGroup>,
    chinese: bool,
    update: Option<(String, String)>,
    plus_days: Option<u64>,
) -> Seq<Seq<(Seq<char>, Shade)>> {
    seq![top_line(s)] + drain_part(s.conn, g) + update_part(chinese, update) + level_part(s, chinese, plus_days)
        + news_part(s.news@)
}

fn piece(text: String, shade: Shade) -> (p: Piece)
    ensures
        p.text == text,
        p.shade == shade,
{
    Piece { text, shade }
}

fn lit(text: &str, shade: Shade) -> (p: Piece)
    ensures
        p.text@ == text@,
        p.shade == shade,
{
    Piece { text: String::from_str(text), shade }
}

fn push_piece(line: &mut Vec<Piece>, p: Piece)
    ensures
        line_view(final(line)@) == line_view(old(line)@).push((p.text@, p.shade)),
{
    let ghost before = line@;
    line.push(p);
    proof {
        assert(line_view(line@) =~= line_view(before).push((p.text@, p.shade)));
    }
}

fn text_or_auto(o: &Option<String>) -> (r: String)
    ensures
        r@ == or_auto(*o),
{
    match o {
        Some(s) => clone_string(s),
        None => String::from_str("Auto"),
    }
}

/// The first line of the status tab names the daemon's state, then the
/// network state with a label and colour of its own for each of the three
/// connection states, then the exit (Auto when none is chosen).
pub proof fn law_top_line_states(s: TuiState)
    ensures
        top_line(s).len() >= 8,
        top_line(s)[0] == ("Daemon: "@, Shade::Plain),
        top_line(s)[1] == (if s.is_running { ("Running"@, Shade::Green) } else { ("Stopped"@, Shade::Red) }),
        top_line(s)[2] == (" | Network: "@, Shade::Plain),
        s.conn is Connected ==> top_line(s)[3] == ("Connected"@, Shade::Green),
        s.conn is Connecting ==> top_line(s)[3] == ("Connecting..."@, Shade::Yellow),
        s.conn is Disconnected ==> top_line(s)[3] == ("Disconnected"@, Shade::Red),
        "Connected"@ != "Connecting..."@,
        "Connected"@ != "Disconnected"@,
        "Connecting..."@ != "Disconnected"@,
        top_line(s)[4] == (" | Exit: "@, Shade::Plain),
        s.selected_country is None ==> top_line(s)[5] == ("Auto"@, Shade::Cyan),
        s.selected_country matches Some(c) ==> top_line(s)[5] == (c@, Shade::Cyan),
{
    reveal_strlit("Connected");
    reveal_strlit("Connecting...");
    reveal_strlit("Disconnected");
    assert("Connected"@.len() == 9 && "Connecting..."@.len() == 13 && "Disconnected"@.len() == 12);
}

/// The first line of the status tab.
pub fn status_top_line(state: &TuiState) -> (line: Vec<Piece>)
    ensures
        line_view(line@) == top_line(*state),
        line_view(line@).len() >= 8,
        state.is_running ==> line_view(line@)[1] == ("Running"@, Shade::Green),
        !state.is_running ==> line_view(line@)[1] == ("Stopped"@, Shade::Red),
        state.conn is Connected ==> line_view(line@)[3] == ("Connected"@, Shade::Green),
        state.conn is Connecting ==> line_view(line@)[3] == ("Connecting..."@, Shade::Yellow),
        state.conn is Disconnected ==> line_view(line@)[3] == ("Disconnected"@, Shade::Red),
{
    proof {
        law_top_line_states(*state);
    }
    let mut line: Vec<Piece> = Vec::new();
    push_piece(&mut line, lit("Daemon: ", Shade::Plain));
    push_piece(&mut line, if state.is_running { lit("Running", Shade::Green) } else { lit("Stopped", Shade::Red) });
    push_piece(&mut line, lit(" | Network: ", Shade::Plain));
    push_piece(&mut line, match &state.conn {
        ConnState::Disconnected => lit("Disconnected", Shade::Red),
        ConnState::Connecting => lit("Connecting...", Shade::Yellow),
        ConnState::Connected { .. } => lit("Connected", Shade::Green),
    });
    push_piece(&mut line, lit(" | Exit: ", Shade::Plain));
    push_piece(&mut line, piece(text_or_auto(&state.selected_country), Shade::Cyan));
    let ghost base = line_view(line@);
    if state.switch_in_progress {
        let t = String::from_str(" (switching to ").concat(text_or_auto(&state.last_switch_target).as_str()).concat("...)");
        push_piece(&mut line, piece(t, Shade::Yellow));
    }
    push_piece(&mut line, lit(" | Listen: ", Shade::Plain));
    push_piece(&mut line, if state.listen_all { lit("0.0.0.0", Shade::Magenta) } else { lit("127.0.0.1", Shade::Gray) });
    proof {
        assert(line_view(line@) =~= top_line(*state));
    }
    line
}

fn group_text(prefix: &str, g: &SessionGroup) -> (r: String)
    ensures
        r@ == group_label(prefix@, *g),
{
    let n = decimal(g.sessions as u64);
    String::from_str(prefix).concat(g.alpha2.as_str()).concat(" (").concat(n.as_str()).concat(" session")
        .concat(if g.sessions > 1 { "s" } else { "" }).concat(")")
}

/// The line that names the active region and the draining ones.
pub fn drain_line_of(g: &Vec<SessionGroup>) -> (line: Vec<Piece>)
    requires
        g@.len() > 0,
    ensures
        line_view(line@) == drain_line(g@),
{
    let mut line: Vec<Piece> = Vec::new();
    push_piece(&mut line, piece(group_text("Active: ", &g[0]), Shade::Green));
    let mut i: usize = 1;
    while i < g.len()
        invariant
            1 <= i <= g@.len(),
            line_view(line@) =~= drain_line(g@.subrange(0, i as int)),
        decreases g@.len() - i,
    {
        push_piece(&mut line, lit(" | ", Shade::Plain));
        push_piece(&mut line, piece(group_text("Draining: ", &g[i as usize]), Shade::DarkGray));
        proof {
            let a = drain_line(g@.subrange(0, i + 1));
            let b = drain_line(g@.subrange(0, i as int));
            assert forall|p: int| 0 <= p < a.len() implies a[p] == (if p < b.len() { b[p] } else if p == b.len() {
                (" | "@, Shade::Plain)
            } else {
                (group_label("Draining: "@, g@[i as int]), Shade::DarkGray)
            }) by {
                if p > 0 && p % 2 == 0 {
                    assert(g@.subrange(0, i + 1)[p / 2] == g@[p / 2]);
                    if p < b.len() {
                        assert(g@.subrange(0, i as int)[p / 2] == g@[p / 2]);
                    }
                }
            }
            assert(line_view(line@) =~= a);
        }
        i = i + 1;
    }
    proof {
        assert(g@.subrange(0, g@.len() as int) =~= g@);
    }
    line
}

fn push_line(lines: &mut Vec<Vec<Piece>>, l: Vec<Piece>)
    ensures
        lines_view(final(lines)@) == lines_view(old(lines)@).push(line_view(l@)),
{
    let ghost before = lines@;
    lines.push(l);
    proof {
        assert(lines_view(lines@) =~= lines_view(before).push(line_view(l@)));
    }
}

fn single(text: String, shade: Shade) -> (l: Vec<Piece>)
    ensures
        line_view(l@) == seq![(text@, shade)],
{
    let mut l: Vec<Piece> = Vec::new();
    push_piece(&mut l, Piece { text, shade });
    proof {
        assert(line_view(l@) =~= seq![(text@, shade)]);
    }
    l
}

fn blank() -> (l: Vec<Piece>)
    ensures
        line_view(l@) == blank_line(),
{
    let l: Vec<Piece> = Vec::new();
    proof {
        assert(line_view(l@) =~= blank_line());
    }
    l
}

fn push_update_lines(lines: &mut Vec<Vec<Piece>>, chinese: bool, update: &Option<(String, String)>)
    ensures
        lines_view(final(lines)@) == lines_view(old(lines)@) + update_part(chinese, *update),
{
    let ghost before = lines_view(lines@);
    match update {
        Some((version, path)) => {
            push_line(lines, blank());
            if chinese {
                push_line(lines, single(String::from_str("提示: 迷雾通新版本 (").concat(version.as_str()).concat(") 的更新包已下载至:"), Shade::Yellow));
                push_line(lines, single(clone_string(path), Shade::Yellow));
                push_line(lines, single(String::from_str("请您前往该目录手动处理此更新。"), Shade::Yellow));
            } else {
                push_line(lines, single(String::from_str("Notice: Update package for Geph (").concat(version.as_str()).concat(") downloaded to:"), Shade::Yellow));
                push_line(lines, single(clone_string(path), Shade::Yellow));
                push_line(lines, single(String::from_str("Please go to this directory and handle the update manually."), Shade::Yellow));
            }
        },
        None => {},
    }
    proof {
        assert(lines_view(lines@) =~= before + update_part(chinese, *update));
    }
}

fn push_level_lines(lines: &mut Vec<Vec<Piece>>, state: &TuiState, chinese: bool, plus_days: Option<u64>)
    ensures
        lines_view(final(lines)@) == lines_view(old(lines)@) + level_part(*state, chinese, plus_days),
{
    let ghost before = lines_view(lines@);
    match &state.level_notice {
        Some(n) => {
            push_line(lines, blank());
            push_line(lines, single(clone_string(n), Shade::Yellow));
        },
        None => {
            if state.last_detected_level == AccountLevel::Plus {
                let days = match plus_days {
                    Some(d) => String::from_str(" (").concat(decimal(d).as_str()).concat(" days left)"),
                    None => String::new(),
                };
                let msg = if chinese {
                    String::from_str("欢迎，尊贵的 Plus 用户！").concat(days.as_str())
                } else {
                    String::from_str("Welcome, Plus user!").concat(days.as_str())
                };
                push_line(lines, blank());
                push_line(lines, single(msg, Shade::Green));
            }
        },
    }
    proof {
        reveal_strlit("");
        assert(lines_view(lines@) =~= before + level_part(*state, chinese, plus_days));
    }
}

proof fn lemma_news_part_push(news: Seq<NewsItem>, k: int)
    requires
        0 <= k < news.len(),
    ensures
        news_part(news.subrange(0, k + 1)) == news_part(news.subrange(0, k)) + news_item_lines(news[k]),
{
    assert(news.subrange(0, k + 1).drop_last() =~= news.subrange(0, k));
}

fn push_news_lines(lines: &mut Vec<Vec<Piece>>, news: &Vec<NewsItem>)
    ensures
        lines_view(final(lines)@) == lines_view(old(lines)@) + news_part(news@),
{
    let ghost start = lines_view(lines@);
    let mut k: usize = 0;
    proof {
        assert(news@.subrange(0, 0) =~= Seq::<NewsItem>::empty());
        assert(start + news_part(Seq::<NewsItem>::empty()) =~= start);
    }
    while k < news.len()
        invariant
            k <= news@.len(),
            lines_view(lines@) == start + news_part(news@.subrange(0, k as int)),
        decreases news@.len() - k,
    {
        let item = &news[k];
        let ghost before = lines_view(lines@);
        push_line(lines, blank());
        if item.important {
            push_line(lines, single(String::from_str("[!] ").concat(item.title.as_str()), Shade::Red));
        } else {
            push_line(lines, single(String::from_str("[*] ").concat(item.title.as_str()), Shade::Cyan));
        }
        let content = text_lines(item.contents.as_str());
        let ghost head = lines_view(lines@);
        let ghost ls = lines_of(item.contents@);
        let mut j: usize = 0;
        while j < content.len()
            invariant
                j <= content@.len(),
                content@.len() == ls.len(),
                forall|i: int| 0 <= i < content@.len() ==> #[trigger] content@[i]@ == ls[i],
                lines_view(lines@) =~= head + ls.subrange(0, j as int).map_values(|l: Seq<char>| seq![(l, Shade::Gray)]),
            decreases content@.len() - j,
        {
            push_line(lines, single(clone_string(&content[j]), Shade::Gray));
            proof {
                assert(ls.subrange(0, j + 1).map_values(|l: Seq<char>| seq![(l, Shade::Gray)]) =~=
                    ls.subrange(0, j as int).map_values(|l: Seq<char>| seq![(l, Shade::Gray)]).push(seq![(ls[j as int], Shade::Gray)]));
            }
            j = j + 1;
        }
        proof {
            assert(ls.subrange(0, ls.len() as int) =~= ls);
            lemma_news_part_push(news@, k as int);
            assert(lines_view(lines@) =~= before + news_item_lines(news@[k as int]));
            assert(start + news_part(news@.subrange(0, k + 1)) =~= start + news_part(news@.subrange(0, k as int)) + news_item_lines(news@[k as int]));
        }
        k = k + 1;
    }
    proof {
        assert(news@.subrange(0, news@.len() as int) =~= news@);
    }
}

/// The lines of the status tab. `chinese` picks the language of the update
/// and greeting lines, `update` names a downloaded update (version and
/// path), `plus_days` is the Plus time left in whole days, rounded up.
pub fn status_view(state: &TuiState, chinese: bool, update: &Option<(String, String)>, plus_days: Option<u64>) -> (lines: Vec<Vec<Piece>>)
    ensures
        exists|g: Seq<SessionGroup>| {
            &&& groups_sessions(sessions_of(state.conn), g)
            &&& busiest_first(g)
            &&& lines_view(lines@) == status_lines(*state, g, chinese, *update, plus_days)
        },
{
    let mut lines: Vec<Vec<Piece>> = Vec::new();
    push_line(&mut lines, status_top_line(state));
    let empty: Vec<SessionExit> = Vec::new();
    let groups = match &state.conn {
        ConnState::Connected { sessions } => group_sessions(sessions),
        _ => group_sessions(&empty),
    };
    let ghost g = groups@;
    proof {
        assert(empty@ =~= Seq::<SessionExit>::empty());
    }
    let connected = match &state.conn {
        ConnState::Connected { .. } => true,
        _ => false,
    };
    if connected && groups.len() > 1 {
        push_line(&mut lines, drain_line_of(&groups));
    }
    push_update_lines(&mut lines, chinese, update);
    push_level_lines(&mut lines, state, chinese, plus_days);
    push_news_lines(&mut lines, &state.news);
    proof {
        assert(lines_view(lines@) =~= status_lines(*state, g, chinese, *update, plus_days));
    }
    lines
}

/// The display width of a text in terminal cells, as the terminal library
/// measures a piece of text.
pub uninterp spec fn display_width(text: Seq<char>) -> usize;

/// Calls `ratatui::text::Span::width` on a span holding `text`; the result is
/// named `display_width`, a function of the text alone. Nothing more is stated
/// of it: the width tables of `unicode-width` take pages.
#[verifier::external_body]
fn piece_width(text: &str) -> (r: usize)
    ensures
        r == display_width(text@),
{
    ratatui::text::Span::raw(text).width()
}

/// The width of a line: the sum of its pieces' widths.
pub open spec fn line_width(l: Seq<Piece>) -> nat
    decreases l.len(),
{
    if l.len() == 0 { 0 } else { line_width(l.drop_last()) + display_width(l.last().text@) as nat }
}

/// The widths of lines, when each fits in a `usize`.
pub open spec fn line_widths(ls: Seq<Vec<Piece>>) -> Seq<usize> {
    ls.map_values(|l: Vec<Piece>| line_width(l@) as usize)
}

/// The width of the text area inside a bordered box of width `w`, at least 1.
pub open spec fn inner_width(w: u16) -> nat {
    if w > 2 { (w - 2) as nat } else { 1 }
}

/// The rows a line of width `width` takes when wrapped at `cw` cells (a line of
/// width 0 counts as none).
pub open spec fn rows_of(width: nat, cw: nat) -> nat {
    ((width + cw - 1) / (cw as int)) as nat
}

/// The rows that lines of widths `ws` take when wrapped at `cw` cells.
pub open spec fn total_rows(ws: Seq<usize>, cw: nat) -> nat
    decreases ws.len(),
{
    if ws.len() == 0 { 0 } else { total_rows(ws.drop_last(), cw) + rows_of(ws.last() as nat, cw) }
}

/// The row arithmetic stays within `usize` for lines of widths `ws`.
pub open spec fn rows_fit(ws: Seq<usize>, cw: nat) -> bool {
    &&& forall|i: int| 0 <= i < ws.len() ==> #[trigger] ws[i] + cw <= usize::MAX
    &&& total_rows(ws, cw) <= usize::MAX
}

/// How far the status text can scroll in a bordered box of `w` by `h` cells:
/// its wrapped rows beyond the inner height, truncated to 16 bits (the low
/// 16 bits of the count, as a cast to `u16` keeps them).
pub open spec fn status_max_scroll(ws: Seq<usize>, w: u16, h: u16) -> u16 {
    let inner = if h > 2 { (h - 2) as nat } else { 0nat };
    let total = total_rows(ws, inner_width(w));
    (if total >= inner { (total - inner) as nat } else { 0nat }) as u16
}

proof fn lemma_total_rows_prefix(ws: Seq<usize>, cw: nat, k: int)
    requires
        0 <= k < ws.len(),
        cw >= 1,
    ensures
        total_rows(ws.subrange(0, k + 1), cw) == total_rows(ws.subrange(0, k), cw) + rows_of(ws[k] as nat, cw),
{
    assert(ws.subrange(0, k + 1).drop_last() =~= ws.subrange(0, k));
}

proof fn lemma_total_rows_monotone(ws: Seq<usize>, cw: nat, k: int)
    requires
        0 <= k <= ws.len(),
        cw >= 1,
    ensures
        total_rows(ws.subrange(0, k), cw) <= total_rows(ws, cw),
    decreases ws.len() - k,
{
    if k < ws.len() {
        lemma_total_rows_monotone(ws, cw, k + 1);
        lemma_total_rows_prefix(ws, cw, k);
    } else {
        assert(ws.subrange(0, k) =~= ws);
    }
}

/// Keeps the status scroll offset within the text: lines of widths `widths`
/// in a bordered box of `area_w` by `area_h` cells.
pub fn clamp_status_scroll(state: &mut TuiState, widths: &Vec<usize>, area_w: u16, area_h: u16)
    requires
        rows_fit(widths@, inner_width(area_w)),
    ensures
        final(state).status_scroll == (if old(state).status_scroll > status_max_scroll(widths@, area_w, area_h) {
            status_max_scroll(widths@, area_w, area_h)
        } else {
            old(state).status_scroll
        }),
        *final(state) == (TuiState { status_scroll: final(state).status_scroll, ..*old(state) }),
{
    let inner_height = area_h.saturating_sub(2) as usize;
    let content_width = area_w.saturating_sub(2) as usize;
    let cw = if content_width > 1 { content_width } else { 1 };
    let ghost cwn = inner_width(area_w);
    assert(cw as nat == cwn);
    let mut total: usize = 0;
    let mut i: usize = 0;
    proof {
        assert(widths@.subrange(0, 0) =~= Seq::<usize>::empty());
    }
    while i < widths.len()
        invariant
            i <= widths@.len(),
            cw as nat == cwn,
            cwn >= 1,
            rows_fit(widths@, cwn),
            total as nat == total_rows(widths@.subrange(0, i as int), cwn),
        decreases widths@.len() - i,
    {
        proof {
            lemma_total_rows_prefix(widths@, cwn, i as int);
            lemma_total_rows_monotone(widths@, cwn, i + 1);
        }
        let w = widths[i];
        let rows = (w + cw - 1) / cw;
        total = total + rows;
        i = i + 1;
    }
    proof {
        assert(widths@.subrange(0, widths@.len() as int) =~= widths@);
    }
    let over = total.saturating_sub(inner_height);
    let max_scroll = #[verifier::truncate] (over as u16);
    if state.status_scroll > max_scroll {
        state.status_scroll = max_scroll;
    }
}

/// The width of a line, when the sum fits in a `usize`.
pub fn measure_line(line: &Vec<Piece>) -> (r: Option<usize>)
    ensures
        match r {
            Some(w) => w as nat == line_width(line@),
            None => line_width(line@) > usize::MAX,
        },
{
    let mut total: usize = 0;
    let mut i: usize = 0;
    proof {
        assert(line@.subrange(0, 0) =~= Seq::<Piece>::empty());
    }
    while i < line.len()
        invariant
            i <= line@.len(),
            total as nat == line_width(line@.subrange(0, i as int)),
        decreases line@.len() - i,
    {
        let w = piece_width(line[i].text.as_str());
        proof {
            assert(line@.subrange(0, i + 1).drop_last() =~= line@.subrange(0, i as int));
        }
        match total.checked_add(w) {
            Some(t) => total = t,
            None => {
                proof {
                    lemma_line_width_prefix(line@, i + 1);
                }
                return None;
            },
        }
        i = i + 1;
    }
    proof {
        assert(line@.subrange(0, line@.len() as int) =~= line@);
    }
    Some(total)
}

proof fn lemma_line_width_prefix(l: Seq<Piece>, k: int)
    requires
        0 <= k <= l.len(),
    ensures
        line_width(l.subrange(0, k)) <= line_width(l),
    decreases l.len() - k,
{
    if k < l.len() {
        lemma_line_width_prefix(l, k + 1);
        assert(l.subrange(0, k + 1).drop_last() =~= l.subrange(0, k));
    } else {
        assert(l.subrange(0, k) =~= l);
    }
}

/// The status lines fit the row arithmetic: every line's width fits in a
/// `usize`, and so do the row counts.
pub open spec fn status_fits(ls: Seq<Vec<Piece>>, w: u16) -> bool {
    &&& forall|i: int| 0 <= i < ls.len() ==> #[trigger] line_width(ls[i]@) <= usize::MAX
    &&& rows_fit(line_widths(ls), inner_width(w))
}

/// Measures the status lines and keeps the scroll offset within them. Returns
/// false, and leaves the state as it was, when the widths overflow the row
/// arithmetic.
pub fn fit_status_scroll(state: &mut TuiState, lines: &Vec<Vec<Piece>>, area_w: u16, area_h: u16) -> (done: bool)
    ensures
        done == status_fits(lines@, area_w),
        done ==> final(state).status_scroll == (if old(state).status_scroll > status_max_scroll(line_widths(lines@), area_w, area_h) {
            status_max_scroll(line_widths(lines@), area_w, area_h)
        } else {
            old(state).status_scroll
        }),
        *final(state) == (TuiState { status_scroll: final(state).status_scroll, ..*old(state) }),
        !done ==> *final(state) == *old(state),
{
    let content_width = area_w.saturating_sub(2) as usize;
    let cw = if content_width > 1 { content_width } else { 1 };
    let ghost cwn = inner_width(area_w);
    assert(cw as nat == cwn);
    let mut widths: Vec<usize> = Vec::new();
    let mut total: usize = 0;
    let mut i: usize = 0;
    let ghost ws = line_widths(lines@);
    proof {
        assert(ws.subrange(0, 0) =~= Seq::<usize>::empty());
    }
    while i < lines.len()
        invariant
            i <= lines@.len(),
            ws == line_widths(lines@),
            cwn == inner_width(area_w),
            cw as nat == cwn,
            cwn >= 1,
            widths@ =~= ws.subrange(0, i as int),
            forall|j: int| 0 <= j < i ==> #[trigger] line_width(lines@[j]@) <= usize::MAX,
            forall|j: int| 0 <= j < i ==> #[trigger] ws[j] + cwn <= usize::MAX,
            total as nat == total_rows(ws.subrange(0, i as int), cwn),
        decreases lines@.len() - i,
    {
        let w = match measure_line(&lines[i]) {
            Some(w) => w,
            None => {
                assert(line_width(lines@[i as int]@) > usize::MAX);
                return false;
            },
        };
        proof {
            assert(ws[i as int] == w);
        }
        let span = match w.checked_add(cw) {
            Some(s) => s - 1,
            None => {
                assert(!(ws[i as int] + cwn <= usize::MAX));
                assert(!rows_fit(ws, cwn));
                return false;
            },
        };
        proof {
            lemma_total_rows_prefix(ws, cwn, i as int);
        }
        total = match total.checked_add(span / cw) {
            Some(t) => t,
            None => {
                proof {
                    lemma_total_rows_monotone(ws, cwn, i + 1);
                    assert(!rows_fit(ws, cwn));
                }
                return false;
            },
        };
        widths.push(w);
        i = i + 1;
    }
    proof {
        assert(ws.subrange(0, ws.len() as int) =~= ws);
    }
    clamp_status_scroll(state, &widths, area_w, area_h);
    true
}

/// How far the debug log can scroll in a bordered box `h` cells high:
/// lines beyond the inner height, truncated to 16 bits (the low 16 bits of
/// the count, as a cast to `u16` keeps them).
pub open spec fn debug_max_scroll(log_count: nat, h: u16) -> u16 {
    let inner = if h > 2 { (h - 2) as nat } else { 0nat };
    (if log_count >= inner { (log_count - inner) as nat } else { 0nat }) as u16
}

/// Keeps the debug log's scroll offset within the log, and at its end while
/// following the log.
pub fn fit_debug_scroll(state: &mut TuiState, log_count: usize, area_h: u16)
    ensures
        final(state).debug_scroll == (if old(state).debug_auto_scroll
            || old(state).debug_scroll > debug_max_scroll(log_count as nat, area_h) {
            debug_max_scroll(log_count as nat, area_h)
        } else {
            old(state).debug_scroll
        }),
        *final(state) == (TuiState { debug_scroll: final(state).debug_scroll, ..*old(state) }),
{
    let inner = area_h.saturating_sub(2) as usize;
    let max_scroll = #[verifier::truncate] (log_count.saturating_sub(inner) as u16);
    if state.debug_auto_scroll {
        state.debug_scroll = max_scroll;
    } else if state.debug_scroll > max_scroll {
        state.debug_scroll = max_scroll;
    }
}

/// One row of the region list: marked when it is the chosen exit.
pub open spec fn region_row(c: Country, selected: Option<String>) -> Seq<char> {
    let chosen = match selected { Some(s) => s@ == c.alpha2@, None => false };
    (if chosen { "[*]"@ } else { "[ ]"@ }) + " "@ + c.alpha2@ + " - "@ + c.name@
}

/// The rows of the region list.
pub fn region_rows(state: &TuiState) -> (rows: Vec<String>)
    ensures
        rows@.len() == state.countries@.len(),
        forall|i: int| 0 <= i < rows@.len() ==> #[trigger] rows@[i]@ == region_row(state.countries@[i], state.selected_country),
{
    let mut rows: Vec<String> = Vec::new();
    let mut i: usize = 0;
    while i < state.countries.len()
        invariant
            i <= state.countries@.len(),
            rows@.len() == i,
            forall|j: int| 0 <= j < i ==> #[trigger] rows@[j]@ == region_row(state.countries@[j], state.selected_country),
        decreases state.countries@.len() - i,
    {
        let cc = &state.countries[i];
        let chosen = match &state.selected_country {
            Some(s) => *s == cc.alpha2,
            None => false,
        };
        let row = String::from_str(if chosen { "[*]" } else { "[ ]" }).concat(" ").concat(cc.alpha2.as_str())
            .concat(" - ").concat(cc.name.as_str());
        rows.push(row);
        i = i + 1;
    }
    rows
}

/// The title of the region list.
pub fn region_title(state: &TuiState) -> (t: &'static str)
    ensures
        t@ == (if state.switch_in_progress {
            "Regions (Up/Down to select, Enter to apply, 'a' for Auto) [switching...]"@
        } else {
            "Regions (Up/Down to select, Enter to apply, 'a' for Auto)"@
        }),
{
    if state.switch_in_progress {
        "Regions (Up/Down to select, Enter to apply, 'a' for Auto) [switching...]"
    } else {
        "Regions (Up/Down to select, Enter to apply, 'a' for Auto)"
    }
}

pub open spec fn on_off(b: bool) -> Seq<char> {
    if b { "ON"@ } else { "OFF"@ }
}

/// The texts of the configuration tab below the three fields: VPN mode,
/// listen address, connection mode, and the hints with the registration status.
pub open spec fn config_texts(s: TuiState) -> Seq<Seq<char>> {
    seq![
        "VPN Mode: "@ + on_off(s.global_vpn) + " (Press 'v' to toggle)"@,
        "Listen All Interfaces: "@ + on_off(s.listen_all) + " (Press 'l' to toggle)"@,
        "Connection Mode: "@ + (if s.allow_direct { "Direct"@ } else { "Bridged"@ }) + " (Press 'b' to toggle)"@,
        "Press 'e' for Secret, 'p' for SOCKS5, 'h' for HTTP port editing.\nEnter/Esc to finish. Press 'r' to register new secret.\n"@
            + s.registration_status@,
    ]
}

fn on_off_text(b: bool) -> (r: &'static str)
    ensures
        r@ == on_off(b),
{
    if b { "ON" } else { "OFF" }
}

/// The texts of the configuration tab below the three fields.
pub fn config_view(state: &TuiState) -> (texts: Vec<String>)
    ensures
        texts@.len() == 4,
        forall|i: int| 0 <= i < 4 ==> #[trigger] texts@[i]@ == config_texts(*state)[i],
{
    let mut texts: Vec<String> = Vec::new();
    texts.push(String::from_str("VPN Mode: ").concat(on_off_text(state.global_vpn)).concat(" (Press 'v' to toggle)"));
    texts.push(String::from_str("Listen All Interfaces: ").concat(on_off_text(state.listen_all)).concat(" (Press 'l' to toggle)"));
    texts.push(String::from_str("Connection Mode: ").concat(if state.allow_direct { "Direct" } else { "Bridged" })
        .concat(" (Press 'b' to toggle)"));
    texts.push(String::from_str("Press 'e' for Secret, 'p' for SOCKS5, 'h' for HTTP port editing.\nEnter/Esc to finish. Press 'r' to register new secret.\n")
        .concat(state.registration_status.as_str()));
    texts
}

/// The text of the debug tab's switch.
pub fn debug_switch_text(state: &TuiState) -> (t: String)
    ensures
        t@ == "Debug Logging to 'gephgui.log': "@ + on_off(state.enable_debug_log)
            + " (Press 'd' to toggle)\nNote: Changes take effect on next Start ('s')."@,
{
    String::from_str("Debug Logging to 'gephgui.log': ").concat(on_off_text(state.enable_debug_log))
        .concat(" (Press 'd' to toggle)\nNote: Changes take effect on next Start ('s').")
}

} // verus!
