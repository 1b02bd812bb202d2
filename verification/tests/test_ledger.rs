use torrent_title_parser::ledger::{Match, MatchLedger};

fn found(raw: &str, at: usize) -> Match {
    Match { raw_match: raw.to_string(), match_index: at }
}

#[test]
fn the_ledger_keeps_one_line_for_each_name() {
    let mut ledger = MatchLedger::new();
    assert!(ledger.get("year").is_none());
    ledger.insert("year", found("2019", 10));
    ledger.insert("codec", found("x264", 20));
    ledger.insert("year", found("1999", 3));
    assert_eq!(ledger.entries.len(), 2);
    let year = ledger.get("year").unwrap();
    assert_eq!((year.raw_match.as_str(), year.match_index), ("1999", 3));
    assert_eq!(ledger.get("codec").unwrap().match_index, 20);
    assert!(ledger.get("Year").is_none());
    assert!(ledger.get("").is_none());
}

#[test]
fn offsets_of_other_names_are_compared() {
    let mut ledger = MatchLedger::new();
    assert!(ledger.precedes_others("a", 0));
    assert!(!ledger.other_before("a", 0, usize::MAX));
    ledger.insert("a", found("x", 5));
    ledger.insert("b", found("y", 9));
    assert!(ledger.precedes_others("a", 8));
    assert!(!ledger.precedes_others("a", 9));
    assert!(!ledger.precedes_others("a", 10));
    assert!(ledger.precedes_others("b", 4));
    assert!(!ledger.precedes_others("b", 5));
    assert!(ledger.precedes_others("c", 4));
    assert!(!ledger.precedes_others("c", 7));
    assert!(ledger.other_before("a", 5, 5));
    assert!(!ledger.other_before("a", 5, 4));
    assert!(ledger.other_before("a", 10, 0));
    assert!(!ledger.other_before("b", 0, 5));
    assert!(ledger.other_before("b", 0, 6));
    assert!(ledger.other_before("c", usize::MAX, usize::MAX));
}
