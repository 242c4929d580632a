use geph_tui::text::{decimal, parse_u16, str_contains, str_lt, text_lines};

#[test]
fn parse_ports_like_std() {
    for s in ["0", "9909", "+80", "65535", "007", "", "+", "-1", "65536", "12a", " 80", "99999999999", "８０"] {
        assert_eq!(parse_u16(s), s.parse::<u16>().ok(), "input {:?}", s);
    }
}

#[test]
fn decimal_text_matches_to_string() {
    for n in [0u64, 7, 10, 99, 100, 12345, u64::MAX] {
        assert_eq!(decimal(n), n.to_string());
    }
}

#[test]
fn decimal_then_parse_round_trips() {
    for p in [0u16, 1, 9909, 65535] {
        assert_eq!(parse_u16(&decimal(p as u64)), Some(p));
    }
}

#[test]
fn string_order_matches_ord() {
    let words = ["", "A", "AB", "B", "US", "UA", "é", "z"];
    for a in words {
        for b in words {
            assert_eq!(str_lt(a, b), a < b, "{:?} {:?}", a, b);
        }
    }
}

#[test]
fn contains_matches_std() {
    for (h, n) in [("zh_CN", "zh"), ("en_US", "zh"), ("", "zh"), ("zh", ""), ("z", "zh"), ("xxzh", "zh")] {
        assert_eq!(str_contains(h, n), h.contains(n));
    }
}

#[test]
fn lines_match_std() {
    for s in ["", "a", "a\n", "\n", "a\r\nb", "a\n\nb\n", "a\r", "line one\nline two\r\n"] {
        let want: Vec<String> = s.lines().map(|l| l.to_string()).collect();
        assert_eq!(text_lines(s), want, "input {:?}", s);
    }
}
