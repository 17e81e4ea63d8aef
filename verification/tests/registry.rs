use verified_registry::clock::is_timestamp;
use verified_registry::registry::{Registry, RegistryError};
use verified_registry::user::VerifiedUser;

fn record(ss13: Option<&str>, discord: Option<&str>, create_time: &str) -> VerifiedUser {
    VerifiedUser {
        ss13: ss13.map(str::to_string),
        discord: discord.map(str::to_string),
        create_time: create_time.to_string(),
    }
}

fn sample() -> Registry {
    Registry::new(vec![
        record(Some("Alice"), Some("111"), "2023-05-01 10:00:00"),
        record(Some("Bob"), Some("222"), "2023-05-02 11:30:00"),
        record(Some("Carol"), Some("333"), "2023-05-03 12:45:59"),
    ])
}

#[test]
fn new_record_has_both_identities() {
    let user = VerifiedUser::new("Bob".to_string(), "123".to_string(), "2024-02-29 23:59:59".to_string());
    assert_eq!(user, record(Some("Bob"), Some("123"), "2024-02-29 23:59:59"));
}

#[test]
fn record_matches_on_discord_or_on_ckey() {
    let user = record(Some("Bob"), Some("123"), "t");
    assert!(user.matches("Bob", "123"));
    assert!(user.matches("Bob", "999"));
    assert!(user.matches("Nobody", "123"));
    assert!(!user.matches("Nobody", "999"));
    assert!(!user.matches("123", "Bob"));
}

#[test]
fn record_matching_is_case_sensitive() {
    let user = record(Some("Bob"), Some("123"), "t");
    assert!(!user.matches("bob", "999"));
    assert!(!user.matches("BOB", "999"));
}

#[test]
fn absent_identity_never_matches() {
    let user = record(None, None, "t");
    assert!(!user.matches("", ""));
    let half = record(None, Some("123"), "t");
    assert!(!half.matches("", "999"));
    assert!(half.matches("", "123"));
}

#[test]
fn empty_identity_matches_empty_key() {
    let user = record(Some(""), Some("123"), "t");
    assert!(user.matches("", "999"));
    assert!(!user.matches("x", "999"));
}

#[test]
fn clone_copies_every_field() {
    let user = record(Some("Bob"), None, "2024-01-01 00:00:00");
    assert_eq!(user.clone(), user);
}

#[test]
fn list_keeps_insertion_order() {
    let registry = sample();
    let list = registry.list();
    assert_eq!(registry.len(), 3);
    assert_eq!(list.len(), 3);
    assert_eq!(list[0].ss13.as_deref(), Some("Alice"));
    assert_eq!(list[1].ss13.as_deref(), Some("Bob"));
    assert_eq!(list[2].ss13.as_deref(), Some("Carol"));
}

#[test]
fn list_is_a_copy() {
    let registry = sample();
    let mut list = registry.list();
    list.clear();
    assert_eq!(registry.len(), 3);
    assert_eq!(registry.list().len(), 3);
}

#[test]
fn find_match_on_empty_registry() {
    let registry = Registry::new(Vec::new());
    assert_eq!(registry.find_match("Bob", "123"), None);
}

#[test]
fn find_match_by_ckey_and_by_discord() {
    let registry = sample();
    assert_eq!(registry.find_match("Bob", "none"), Some(1));
    assert_eq!(registry.find_match("none", "333"), Some(2));
    assert_eq!(registry.find_match("none", "none"), None);
}

#[test]
fn find_match_first_match_wins() {
    let registry = sample();
    // the handle is Carol's, the account id is Alice's: Alice comes first
    assert_eq!(registry.find_match("Carol", "111"), Some(0));
    assert_eq!(registry.find_match("Carol", "222"), Some(1));
}

#[test]
fn add_at_appends_the_record() {
    let mut registry = sample();
    let snapshot = registry
        .add_at("Dave".to_string(), "444".to_string(), "2024-06-07 08:09:10".to_string())
        .unwrap();
    assert_eq!(registry.len(), 4);
    assert_eq!(snapshot, registry.list());
    assert_eq!(snapshot[3], record(Some("Dave"), Some("444"), "2024-06-07 08:09:10"));
    assert_eq!(snapshot[0], record(Some("Alice"), Some("111"), "2023-05-01 10:00:00"));
}

#[test]
fn add_then_list_holds_the_new_record() {
    let mut registry = sample();
    assert_eq!(registry.find_match("Dave", "444"), None);
    let snapshot = registry.add("Dave".to_string(), "444".to_string()).unwrap();
    let list = registry.list();
    assert_eq!(list, snapshot);
    assert_eq!(list.len(), 4);
    let last = &list[3];
    assert_eq!(last.ss13.as_deref(), Some("Dave"));
    assert_eq!(last.discord.as_deref(), Some("444"));
    assert!(is_timestamp(&last.create_time));
    assert_eq!(last.create_time.len(), 19);
}

#[test]
fn add_stamps_a_present_day_year() {
    let mut registry = Registry::new(Vec::new());
    let list = registry.add("Bob".to_string(), "123".to_string()).unwrap();
    let year: u32 = list[0].create_time[0..4].parse().unwrap();
    assert!(year >= 2024);
    let month: u32 = list[0].create_time[5..7].parse().unwrap();
    assert!((1..=12).contains(&month));
    let hour: u32 = list[0].create_time[11..13].parse().unwrap();
    assert!(hour < 24);
}

#[test]
fn add_of_present_discord_conflicts() {
    let mut registry = sample();
    let result = registry.add("Dave".to_string(), "222".to_string());
    assert_eq!(result, Err(RegistryError::Conflict));
    assert_eq!(registry.len(), 3);
}

#[test]
fn add_of_present_ckey_conflicts() {
    let mut registry = sample();
    let result = registry.add_at("Alice".to_string(), "999".to_string(), "2024-01-01 00:00:00".to_string());
    assert_eq!(result, Err(RegistryError::Conflict));
    assert_eq!(registry.len(), 3);
    assert_eq!(registry.list()[0], record(Some("Alice"), Some("111"), "2023-05-01 10:00:00"));
}

#[test]
fn add_twice_conflicts() {
    let mut registry = Registry::new(Vec::new());
    assert!(registry.add("Bob".to_string(), "123".to_string()).is_ok());
    assert_eq!(registry.add("Bob".to_string(), "123".to_string()), Err(RegistryError::Conflict));
    assert_eq!(registry.add("Bob".to_string(), "456".to_string()), Err(RegistryError::Conflict));
    assert_eq!(registry.add("Rob".to_string(), "123".to_string()), Err(RegistryError::Conflict));
    assert_eq!(registry.len(), 1);
}

#[test]
fn delete_by_ckey_removes_exactly_one() {
    let mut registry = sample();
    let snapshot = registry.delete("Bob", "no such id").unwrap();
    assert_eq!(snapshot.len(), 2);
    assert_eq!(registry.len(), 2);
    assert_eq!(snapshot[0].ss13.as_deref(), Some("Alice"));
    assert_eq!(snapshot[1].ss13.as_deref(), Some("Carol"));
    assert_eq!(registry.delete("Bob", "no such id"), Err(RegistryError::NotFound));
    assert_eq!(registry.len(), 2);
}

#[test]
fn delete_by_discord_removes_exactly_one() {
    let mut registry = sample();
    let snapshot = registry.delete("no such handle", "111").unwrap();
    assert_eq!(snapshot, registry.list());
    assert_eq!(snapshot.len(), 2);
    assert_eq!(snapshot[0].ss13.as_deref(), Some("Bob"));
    assert_eq!(registry.delete("no such handle", "111"), Err(RegistryError::NotFound));
}

#[test]
fn delete_on_empty_registry_is_not_found() {
    let mut registry = Registry::new(Vec::new());
    assert_eq!(registry.delete("Bob", "123"), Err(RegistryError::NotFound));
    assert_eq!(registry.len(), 0);
}

#[test]
fn delete_takes_the_first_of_two_matches() {
    let mut registry = sample();
    // the handle answers to Carol, the account id to Alice
    let snapshot = registry.delete("Carol", "111").unwrap();
    assert_eq!(snapshot.len(), 2);
    assert_eq!(snapshot[0].ss13.as_deref(), Some("Bob"));
    assert_eq!(snapshot[1].ss13.as_deref(), Some("Carol"));
    // the same key still answers to Carol
    let snapshot = registry.delete("Carol", "111").unwrap();
    assert_eq!(snapshot.len(), 1);
    assert_eq!(registry.delete("Carol", "111"), Err(RegistryError::NotFound));
}

#[test]
fn add_then_delete_restores_the_list() {
    let mut registry = sample();
    let before = registry.list();
    registry.add("Dave".to_string(), "444".to_string()).unwrap();
    let after = registry.delete("Dave", "444").unwrap();
    assert_eq!(after, before);
    assert_eq!(registry.delete("Dave", "444"), Err(RegistryError::NotFound));
}

#[test]
fn loaded_duplicates_are_kept_and_removed_one_by_one() {
    let mut registry = Registry::new(vec![
        record(Some("Bob"), Some("1"), "a"),
        record(Some("Bob"), Some("2"), "b"),
    ]);
    assert_eq!(registry.len(), 2);
    let snapshot = registry.delete("Bob", "x").unwrap();
    assert_eq!(snapshot, vec![record(Some("Bob"), Some("2"), "b")]);
    let snapshot = registry.delete("Bob", "x").unwrap();
    assert!(snapshot.is_empty());
}
