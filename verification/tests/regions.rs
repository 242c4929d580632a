use geph_tui::exits::{exits_for_level, Exit};
use geph_tui::model::{AccountLevel, Country, SessionExit};
use geph_tui::sessions::group_sessions;

fn exit(code: &str, name: &str, levels: &[AccountLevel]) -> Exit {
    Exit { alpha2: code.to_string(), name: name.to_string(), allowed_levels: levels.to_vec() }
}

fn codes(r: &[Country]) -> Vec<String> {
    r.iter().map(|c| c.alpha2.clone()).collect()
}

#[test]
fn exits_filtered_deduplicated_sorted() {
    let exits = vec![
        exit("US", "United States", &[AccountLevel::Free, AccountLevel::Plus]),
        exit("DE", "Germany", &[AccountLevel::Plus]),
        exit("CA", "Canada", &[AccountLevel::Free]),
        exit("US", "Second US", &[AccountLevel::Free]),
        exit("AT", "Austria", &[AccountLevel::Plus]),
    ];
    let free = exits_for_level(&exits, AccountLevel::Free);
    assert_eq!(codes(&free), vec!["CA", "US"]);
    assert_eq!(free[1].name, "United States");
    let plus = exits_for_level(&exits, AccountLevel::Plus);
    assert_eq!(codes(&plus), vec!["AT", "DE", "US"]);
}

#[test]
fn no_exits_no_regions() {
    assert!(exits_for_level(&Vec::new(), AccountLevel::Free).is_empty());
}

fn session(code: &str) -> SessionExit {
    SessionExit { alpha2: code.to_string(), name: String::new() }
}

#[test]
fn sessions_grouped_busiest_first() {
    let s = vec![session("DE"), session("US"), session("US"), session("FR"), session("US"), session("FR")];
    let g = group_sessions(&s);
    let got: Vec<(String, usize)> = g.iter().map(|x| (x.alpha2.clone(), x.sessions)).collect();
    assert_eq!(got, vec![("US".to_string(), 3), ("FR".to_string(), 2), ("DE".to_string(), 1)]);
    let total: usize = g.iter().map(|x| x.sessions).sum();
    assert_eq!(total, s.len());
}

#[test]
fn no_sessions_no_groups() {
    assert!(group_sessions(&Vec::new()).is_empty());
}
