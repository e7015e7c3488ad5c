use onchain_map::ledger::{
    parse_entry, EntryFault, LeaderboardStore, LedgerError, OnChainPlayer, RawEntry, Tables,
};

fn raw(address: &str, score: &str) -> RawEntry {
    RawEntry { address: Some(address.to_string()), score: Some(score.to_string()) }
}

fn entry(address: &str, score: &str) -> OnChainPlayer {
    OnChainPlayer { address: address.to_string(), score: score.to_string() }
}

fn addresses(board: &[OnChainPlayer]) -> Vec<&str> {
    board.iter().map(|p| p.address.as_str()).collect()
}

#[test]
fn boards_start_empty() {
    let store = LeaderboardStore::new();
    assert!(store.get(Tables::EconomicVictory).is_empty());
    assert!(store.get(Tables::CulturalVictory).is_empty());
    assert!(store.get(Tables::DiplomaticVictory).is_empty());
}

#[test]
fn set_replaces_instead_of_merging() {
    let mut store = LeaderboardStore::new();
    assert!(store.set_checked(Tables::EconomicVictory, vec![raw("a", "1"), raw("b", "2")]).is_ok());
    assert!(store.set_checked(Tables::EconomicVictory, vec![raw("c", "3")]).is_ok());
    let board = store.get(Tables::EconomicVictory);
    assert_eq!(addresses(board), vec!["c"]);
    assert_eq!(board[0].score, "3");
}

#[test]
fn boards_are_independent() {
    let mut store = LeaderboardStore::new();
    assert!(store.set_checked(Tables::EconomicVictory, vec![raw("eco", "1")]).is_ok());
    assert!(store.set_checked(Tables::CulturalVictory, vec![raw("cul", "2")]).is_ok());
    assert!(store.set_checked(Tables::DiplomaticVictory, vec![raw("dip", "3")]).is_ok());
    assert_eq!(addresses(store.get(Tables::EconomicVictory)), vec!["eco"]);
    assert_eq!(addresses(store.get(Tables::CulturalVictory)), vec!["cul"]);
    assert_eq!(addresses(store.get(Tables::DiplomaticVictory)), vec!["dip"]);
}

#[test]
fn duplicates_and_order_are_kept_as_given() {
    let mut store = LeaderboardStore::new();
    let batch = vec![raw("z", "1"), raw("a", "9"), raw("z", "1")];
    assert!(store.set_checked(Tables::CulturalVictory, batch).is_ok());
    assert_eq!(addresses(store.get(Tables::CulturalVictory)), vec!["z", "a", "z"]);
}

#[test]
fn malformed_entry_rejects_the_whole_batch() {
    let mut store = LeaderboardStore::new();
    assert!(store.set_checked(Tables::EconomicVictory, vec![raw("old", "5")]).is_ok());
    let bad = RawEntry { address: Some("new".to_string()), score: None };
    let result = store.set_checked(Tables::EconomicVictory, vec![raw("valid", "1"), bad]);
    assert_eq!(
        result,
        Err(LedgerError { category: Tables::EconomicVictory, fault: EntryFault::MissingScore })
    );
    assert_eq!(addresses(store.get(Tables::EconomicVictory)), vec!["old"]);
}

#[test]
fn missing_address_is_reported_for_the_first_bad_entry() {
    let mut store = LeaderboardStore::new();
    let no_address = RawEntry { address: None, score: Some("1".to_string()) };
    let no_score = RawEntry { address: Some("x".to_string()), score: None };
    let result = store.set_checked(Tables::DiplomaticVictory, vec![no_address, no_score]);
    assert_eq!(
        result,
        Err(LedgerError { category: Tables::DiplomaticVictory, fault: EntryFault::MissingAddress })
    );
    assert!(store.get(Tables::DiplomaticVictory).is_empty());
}

#[test]
fn empty_batch_replaces_with_nothing() {
    let mut store = LeaderboardStore::new();
    assert!(store.set_checked(Tables::EconomicVictory, vec![raw("a", "1")]).is_ok());
    assert!(store.set_checked(Tables::EconomicVictory, Vec::new()).is_ok());
    assert!(store.get(Tables::EconomicVictory).is_empty());
}

#[test]
fn set_stores_entries_verbatim() {
    let mut store = LeaderboardStore::new();
    store.set(Tables::EconomicVictory, vec![entry("direct", "42")]);
    let board = store.get(Tables::EconomicVictory);
    assert_eq!(board.len(), 1);
    assert_eq!(board[0].address, "direct");
    assert_eq!(board[0].score, "42");
}

#[test]
fn parse_entry_keeps_both_fields() {
    let parsed = parse_entry(raw("addr", "123")).unwrap();
    assert_eq!(parsed.address, "addr");
    assert_eq!(parsed.score, "123");
}

#[test]
fn parse_entry_reports_what_is_missing() {
    let no_address = RawEntry { address: None, score: Some("1".to_string()) };
    assert_eq!(parse_entry(no_address), Err(EntryFault::MissingAddress));
    let no_score = RawEntry { address: Some("x".to_string()), score: None };
    assert_eq!(parse_entry(no_score), Err(EntryFault::MissingScore));
    let neither = RawEntry { address: None, score: None };
    assert_eq!(parse_entry(neither), Err(EntryFault::MissingAddress));
}

#[test]
fn table_labels() {
    assert_eq!(Tables::EconomicVictory.label(), "Economic Victory");
    assert_eq!(Tables::CulturalVictory.label(), "Cultural Victory");
    assert_eq!(Tables::DiplomaticVictory.label(), "Diplomatic Victory");
}

#[test]
fn table_from_tab_index() {
    assert_eq!(Tables::from(0usize), Tables::EconomicVictory);
    assert_eq!(Tables::from(1usize), Tables::CulturalVictory);
    assert_eq!(Tables::from(2usize), Tables::DiplomaticVictory);
    assert_eq!(Tables::from(9usize), Tables::EconomicVictory);
}
