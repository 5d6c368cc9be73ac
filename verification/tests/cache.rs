use linear_cli::cache::{Cache, CachedTeam, CACHE_FILE, CACHE_TTL_SECS};
use linear_cli::clock::unix_now;
use linear_cli::resolve::{finish_team_lookup, plan_team_lookup, TeamLookup};
use linear_cli::types::Team;

fn team(id: &str, key: &str, name: &str) -> CachedTeam {
    CachedTeam { id: id.to_string(), key: key.to_string(), name: name.to_string() }
}

fn node(id: &str, key: &str) -> Team {
    Team { id: id.to_string(), key: key.to_string(), name: format!("{key} team") }
}

#[test]
fn ttl_is_one_hour() {
    assert_eq!(CACHE_TTL_SECS, 3600);
    assert_eq!(CACHE_FILE, "cache.json");
}

#[test]
fn new_cache_is_empty() {
    let c = Cache::new();
    assert_eq!(c.timestamp(), 0);
    assert!(c.teams().is_empty());
    assert_eq!(c.get_team_id("ENG"), None);
    assert_eq!(c.get("ENG", 0), None);
}

#[test]
fn set_team_then_get() {
    let mut c = Cache::new();
    c.set_team_at(team("t1", "ENG", "Engineering"), 1000);
    assert_eq!(c.get("ENG", 1000), Some("t1".to_string()));
    assert_eq!(c.timestamp(), 1000);
    assert_eq!(c.teams().len(), 1);
}

#[test]
fn set_team_overwrites_same_key_and_keeps_others() {
    let mut c = Cache::new();
    c.set_team_at(team("t1", "ENG", "Engineering"), 1000);
    c.set_team_at(team("d1", "DES", "Design"), 1001);
    c.set_team_at(team("t2", "ENG", "Engineering"), 1002);
    assert_eq!(c.get("ENG", 1002), Some("t2".to_string()));
    assert_eq!(c.get("DES", 1002), Some("d1".to_string()));
    assert_eq!(c.teams().len(), 2);
    assert_eq!(c.timestamp(), 1002);
}

#[test]
fn keys_are_case_sensitive() {
    let mut c = Cache::new();
    c.set_team_at(team("t1", "ENG", "Engineering"), 1000);
    assert_eq!(c.get("ENG", 1000), Some("t1".to_string()));
    assert_eq!(c.get("eng", 1000), None);
    assert_eq!(c.get("EN", 1000), None);
}

#[test]
fn get_is_none_once_stale_whatever_is_cached() {
    let mut c = Cache::new();
    c.set_team_at(team("t1", "ENG", "Engineering"), 10_000);
    assert_eq!(c.get("ENG", 10_000), Some("t1".to_string()));
    assert_eq!(c.get("ENG", 10_000 + 3600), Some("t1".to_string()));
    assert_eq!(c.get("ENG", 10_000 + 3601), None);
    assert_eq!(c.get("ENG", u64::MAX), None);
    assert!(!c.is_stale(13_600));
    assert!(c.is_stale(13_601));
}

#[test]
fn the_getter_without_a_time_reads_the_clock() {
    let now = unix_now();
    let fresh = Cache::from_parts(vec![team("t1", "ENG", "Engineering")], now - 600);
    assert_eq!(fresh.get_team_id("ENG"), Some("t1".to_string()));
    assert_eq!(fresh.get_team_id("eng"), None);
    let stale = Cache::from_parts(vec![team("t1", "ENG", "Engineering")], now - 7200);
    assert_eq!(stale.get_team_id("ENG"), None);
    let ancient = Cache::from_parts(vec![team("t1", "ENG", "Engineering")], 1000);
    assert_eq!(ancient.get_team_id("ENG"), None);
    // The stamp of the whole cache counts, not the age of an entry.
    let mut renewed = Cache::from_parts(vec![team("t1", "ENG", "Engineering")], 1000);
    renewed.set_team(team("d1", "DES", "Design"));
    assert_eq!(renewed.get_team_id("ENG"), Some("t1".to_string()));
}

#[test]
fn a_stamp_ahead_of_the_clock_is_fresh() {
    let mut c = Cache::new();
    c.set_team_at(team("t1", "ENG", "Engineering"), 10_000);
    assert_eq!(c.get("ENG", 5), Some("t1".to_string()));
    assert!(!c.is_stale(0));
}

#[test]
fn set_team_stamps_with_the_clock() {
    let before = unix_now();
    let mut c = Cache::new();
    c.set_team(team("t1", "ENG", "Engineering"));
    let after = unix_now();
    assert!(before <= c.timestamp() && c.timestamp() <= after);
    assert!(before > 1_600_000_000);
    assert_eq!(c.get_team_id("ENG"), Some("t1".to_string()));
    assert_eq!(c.get_team_id("DES"), None);
}

#[test]
fn from_parts_later_entry_wins() {
    let c = Cache::from_parts(
        vec![team("t1", "ENG", "Old"), team("d1", "DES", "Design"), team("t9", "ENG", "New")],
        77,
    );
    assert_eq!(c.timestamp(), 77);
    assert_eq!(c.get("ENG", 77), Some("t9".to_string()));
    assert_eq!(c.get("DES", 77), Some("d1".to_string()));
    assert_eq!(c.teams().len(), 2);
}

#[test]
fn from_parts_of_nothing_keeps_the_stamp() {
    let c = Cache::from_parts(vec![], 42);
    assert_eq!(c.timestamp(), 42);
    assert!(c.teams().is_empty());
}

#[test]
fn loaded_drops_a_stale_or_missing_cache() {
    let stored = Cache::from_parts(vec![team("t1", "ENG", "Engineering")], 1000);
    let c = Cache::loaded(Some(stored), 1000 + 3601);
    assert!(c.teams().is_empty());
    assert_eq!(c.timestamp(), 0);
    let none = Cache::loaded(None, 5);
    assert!(none.teams().is_empty());
}

#[test]
fn loaded_keeps_a_fresh_cache() {
    let stored = Cache::from_parts(vec![team("t1", "ENG", "Engineering")], 1000);
    let c = Cache::loaded(Some(stored), 1000 + 3600);
    assert_eq!(c.get("ENG", 1000 + 3600), Some("t1".to_string()));
    assert_eq!(c.timestamp(), 1000);
}

#[test]
fn copy_keeps_the_three_texts() {
    let t = team("t1", "ENG", "Engineering");
    let u = t.copy();
    assert_eq!((u.id, u.key, u.name), (t.id, t.key, t.name));
}

#[test]
fn ten_minute_old_entry_is_used_without_a_query() {
    let now = 1_700_000_000;
    let cache = Cache::from_parts(vec![team("t1", "ENG", "Engineering")], now - 600);
    match plan_team_lookup(&cache, "ENG", now) {
        TeamLookup::Known { id } => assert_eq!(id, "t1"),
        TeamLookup::Query { .. } => panic!("a fresh entry needs no query"),
    }
}

#[test]
fn two_hour_old_entry_is_ignored_and_replaced() {
    let now = 1_700_000_000;
    let mut cache = Cache::from_parts(vec![team("t1", "ENG", "Engineering")], now - 7200);
    match plan_team_lookup(&cache, "ENG", now) {
        TeamLookup::Query { key } => assert_eq!(key, "ENG"),
        TeamLookup::Known { .. } => panic!("a stale entry must not be used"),
    }
    let id = finish_team_lookup(&mut cache, "ENG", &vec![node("t2", "ENG")], now).unwrap();
    assert_eq!(id, "t2");
    assert_eq!(cache.timestamp(), now);
    assert_eq!(cache.get("ENG", now), Some("t2".to_string()));
}
