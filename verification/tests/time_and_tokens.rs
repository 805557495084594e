use api::password::{check_password, hash_password};
use api::time::{checked_session_expiry, now, session_expiry, Timestamp, MAX_UTC_SECS};
use api::token::new_session_token;

#[test]
fn instants_order_by_seconds_then_nanoseconds() {
    let a = Timestamp { secs: 10, nanos: 500 };
    let b = Timestamp { secs: 10, nanos: 501 };
    let c = Timestamp { secs: 11, nanos: 0 };
    assert!(a.is_before(&b));
    assert!(b.is_before(&c));
    assert!(a.is_before(&c));
    assert!(!b.is_before(&a));
    assert!(!a.is_before(&a));
}

#[test]
fn clock_reads_a_recent_instant() {
    let t = now();
    // 2020-01-01T00:00:00Z
    assert!(t.secs > 1_577_836_800);
    assert!(t.secs <= MAX_UTC_SECS);
    assert!(t.nanos < 1_000_000_000);
}

#[test]
fn session_expires_seven_days_after_creation() {
    let created = Timestamp { secs: 1_700_000_000, nanos: 123_456_789 };
    let expiry = session_expiry(created);
    assert_eq!(expiry, Timestamp { secs: 1_700_604_800, nanos: 123_456_789 });
    assert_eq!(checked_session_expiry(created), Some(expiry));
}

#[test]
fn expiry_at_the_end_of_the_calendar() {
    let last = Timestamp { secs: MAX_UTC_SECS - 604_800, nanos: 0 };
    assert_eq!(
        checked_session_expiry(last),
        Some(Timestamp { secs: MAX_UTC_SECS, nanos: 0 })
    );
    let too_late = Timestamp { secs: MAX_UTC_SECS - 604_799, nanos: 0 };
    assert_eq!(checked_session_expiry(too_late), None);
}

fn is_lower_hex(c: char) -> bool {
    c.is_ascii_digit() || ('a'..='f').contains(&c)
}

#[test]
fn session_tokens_are_random_v4_uuids() {
    let t = new_session_token();
    let chars: Vec<char> = t.chars().collect();
    assert_eq!(chars.len(), 36);
    for (i, c) in chars.iter().enumerate() {
        if i == 8 || i == 13 || i == 18 || i == 23 {
            assert_eq!(*c, '-');
        } else {
            assert!(is_lower_hex(*c));
        }
    }
    assert_eq!(chars[14], '4');
    assert!(matches!(chars[19], '8' | '9' | 'a' | 'b'));
    assert_ne!(new_session_token(), t);
}

#[test]
fn known_hash_accepts_its_password_only() {
    let hash = "$2b$04$EGdrhbKUv8Oc9vGiXX0HQOxSg445d458Muh7DAHskb6QbtCvdxcie";
    assert!(check_password("correctbatteryhorsestapler", hash));
    assert!(!check_password("wrong", hash));
}

#[test]
fn malformed_hash_accepts_nothing() {
    assert!(!check_password("secret", "secret"));
    assert!(!check_password("", ""));
    let short = "$2a$04$tjARW6ZON3PhrAIRW2LG/u9a.";
    assert!(!check_password("secret", short));
}

#[test]
fn hashed_password_is_accepted_and_others_are_not() {
    let hash = hash_password("hunter2").unwrap();
    assert_eq!(hash.len(), 60);
    assert!(hash.starts_with("$2b$12$"));
    assert_ne!(hash, "hunter2");
    assert!(check_password("hunter2", &hash));
    assert!(!check_password("hunter3", &hash));
    let again = hash_password("hunter2").unwrap();
    assert_ne!(again, hash);
    assert!(check_password("hunter2", &again));
}
