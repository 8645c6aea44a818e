use udo::cache::{check_cache_content, check_entry, get_cache_dir, session_id, Cache, CacheEntry};
use udo::text::base_name;
use udo::user::UserIdentity;

fn alice() -> UserIdentity {
    UserIdentity {
        name: "alice".to_string(),
        uid: 1000,
        primary_gid: 1000,
        home: "/home/alice".to_string(),
        shell: "/bin/sh".to_string(),
    }
}

#[test]
fn entry_renders_canonically() {
    let e = CacheEntry::new(5, 0);
    assert_eq!(e.to_content(), "timestamp = 5\nuid = 0\n");
    let neg = CacheEntry::new(-12, 4294967295);
    assert_eq!(neg.to_content(), "timestamp = -12\nuid = 4294967295\n");
}

#[test]
fn entry_round_trips() {
    let cases = [
        CacheEntry::new(0, 0),
        CacheEntry::new(5, 1000),
        CacheEntry::new(-1, 7),
        CacheEntry::new(i64::MAX, u32::MAX),
        CacheEntry::new(i64::MIN, 1),
    ];
    for e in cases {
        let text = e.to_content();
        let back = CacheEntry::from_content(&text).unwrap();
        assert_eq!(back, e);
    }
}

#[test]
fn entry_parser_is_strict() {
    // only the canonical rendering is accepted
    assert!(CacheEntry::from_content("").is_none());
    assert!(CacheEntry::from_content("timestamp = 007\nuid = 0\n").is_none());
    assert!(CacheEntry::from_content("timestamp = 5\nuid = 0").is_none());
    assert!(CacheEntry::from_content("timestamp = 5\nuid = 0\n\n").is_none());
    assert!(CacheEntry::from_content("timestamp = -0\nuid = 0\n").is_none());
    assert!(CacheEntry::from_content("timestamp = 5\nuid = -1\n").is_none());
    assert!(CacheEntry::from_content("stamp = 5\nuid = 0\n").is_none());
    assert!(CacheEntry::from_content("timestamp = 5\nuid = 4294967296\n").is_none());
    assert!(CacheEntry::from_content("timestamp = 9223372036854775808\nuid = 0\n").is_none());
    assert!(CacheEntry::from_content("timestamp = 5 \nuid = 0\n").is_none());
    // and the canonical extremes are
    assert!(CacheEntry::from_content("timestamp = -9223372036854775808\nuid = 0\n").is_some());
    assert!(CacheEntry::from_content("timestamp = 9223372036854775807\nuid = 4294967295\n").is_some());
}

#[test]
fn entry_validity_window() {
    // a 5-second-old entry for uid 0 with a 10-second window is valid
    let e = CacheEntry::new(95, 0);
    assert!(check_entry(&e, 100, 10, 0));
    // the same entry with a 5-second window is already invalid: the
    // boundary is strictly less-than
    assert!(!check_entry(&e, 100, 5, 0));
}

#[test]
fn entry_user_isolation() {
    // fresh, but written for another target uid: never valid
    let e = CacheEntry::new(100, 1000);
    assert!(check_entry(&e, 100, 10, 1000));
    assert!(!check_entry(&e, 100, 10, 0));
}

#[test]
fn cache_content_check() {
    let e = CacheEntry::new(95, 0);
    let text = e.to_content();
    assert!(check_cache_content(Some(&text), 100, 10, 0));
    assert!(!check_cache_content(Some(&text), 100, 5, 0));
    assert!(!check_cache_content(Some(&text), 100, 10, 1000));
    assert!(!check_cache_content(None, 100, 10, 0));
    let garbage = "timestamp = soon\nuid = 0\n".to_string();
    assert!(!check_cache_content(Some(&garbage), 100, 10, 0));
}

#[test]
fn negative_and_future_timestamps() {
    // a future entry (clock skew) is still "fresh" under the strict rule
    let future = CacheEntry::new(200, 0);
    assert!(check_entry(&future, 100, 10, 0));
    // extreme values do not overflow the age computation
    let ancient = CacheEntry::new(i64::MIN, 0);
    assert!(!check_entry(&ancient, i64::MAX, 10, 0));
}

#[test]
fn session_id_composition() {
    assert_eq!(session_id(1000, "pts3", 42), "1000-pts3-42");
    assert_eq!(session_id(0, "tty1", 1), "0-tty1-1");
}

#[test]
fn tty_base_name() {
    assert_eq!(base_name("/dev/pts/3"), "3");
    assert_eq!(base_name("tty0"), "tty0");
    assert_eq!(base_name("/dev/tty/"), "");
}

#[test]
fn cache_paths() {
    let user = alice();
    assert_eq!(get_cache_dir(&user), "/var/run/udo/alice");
    let cache = Cache::new(&user);
    assert_eq!(cache.entry_path("1000-pts3-42"), "/var/run/udo/alice/1000-pts3-42");
}
