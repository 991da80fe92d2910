use chatter::db::Session;
use chatter::session::{age_in_days, is_expired, MILLIS_PER_DAY, TTL_DAYS};

fn session_created_at(created: i64) -> Session {
    Session { id: "tok".to_string(), user: "alice".to_string(), created }
}

#[test]
fn time_to_live_is_thirty_days() {
    assert_eq!(TTL_DAYS, 30);
    assert_eq!(MILLIS_PER_DAY, 24 * 60 * 60 * 1000);
}

#[test]
fn age_counts_whole_days() {
    assert_eq!(age_in_days(0, 0), 0);
    assert_eq!(age_in_days(0, 86_399_999), 0);
    assert_eq!(age_in_days(0, 86_400_000), 1);
    assert_eq!(age_in_days(1_000, 86_400_999), 0);
    assert_eq!(age_in_days(1_000, 86_401_000), 1);
    assert_eq!(age_in_days(0, 30 * 86_400_000), 30);
    assert_eq!(age_in_days(0, 31 * 86_400_000 - 1), 30);
    assert_eq!(age_in_days(0, 31 * 86_400_000), 31);
    assert_eq!(age_in_days(1_700_000_000_000, 1_702_678_400_000), 31);
}

#[test]
fn age_of_a_session_from_the_future_is_not_positive() {
    assert_eq!(age_in_days(86_399_999, 0), 0);
    assert_eq!(age_in_days(86_400_000, 0), -1);
    assert_eq!(age_in_days(2 * 86_400_000 + 5, 0), -2);
}

#[test]
fn age_at_the_ends_of_the_range() {
    assert_eq!(age_in_days(i64::MIN, i64::MAX), 213_503_982_334);
    assert_eq!(age_in_days(i64::MAX, i64::MIN), -213_503_982_334);
    assert_eq!(age_in_days(i64::MIN, i64::MIN), 0);
    assert_eq!(age_in_days(i64::MAX, i64::MAX), 0);
}

#[test]
fn expiry_is_strictly_after_day_thirty() {
    let session = session_created_at(1_000);
    assert!(!is_expired(&session, 1_000));
    assert!(!is_expired(&session, 1_000 + 30 * MILLIS_PER_DAY));
    assert!(!is_expired(&session, 1_000 + 31 * MILLIS_PER_DAY - 1));
    assert!(is_expired(&session, 1_000 + 31 * MILLIS_PER_DAY));
    assert!(is_expired(&session, 1_000 + 365 * MILLIS_PER_DAY));
    assert!(!is_expired(&session, 0));
    assert!(!is_expired(&session, i64::MIN));
    assert!(is_expired(&session, i64::MAX));
}
