use berg_operator::error::Error;
use berg_operator::model::{ChallengeInstance, ChallengeInstanceSpec, ChallengeInstanceStatus, ChallengeRef};
use berg_operator::time::{text_of, instant_of};
use berg_operator::timeout::{calculate_expiry, is_expired, parse_timeout, seconds_left};

#[test]
fn test_parse_timeout() {
    assert_eq!(parse_timeout("2h").unwrap(), 2 * 3600);
    assert_eq!(parse_timeout("30m").unwrap(), 30 * 60);
    assert_eq!(parse_timeout("1h30m").unwrap(), 90 * 60);
    assert_eq!(parse_timeout("1h30m15s").unwrap(), 5415);
}

#[test]
fn test_parse_timeout_invalid() {
    assert!(parse_timeout("invalid").is_err());
    assert!(parse_timeout("2x").is_err());
    assert!(parse_timeout("2").is_err());
}

#[test]
fn parse_timeout_rejects_malformed_texts() {
    for t in ["", "2", "2x", "h", "-1h", "1h2", "1hm", " 1h"] {
        assert!(matches!(parse_timeout(t), Err(Error::TimeoutParseError(_))), "{}", t);
    }
}

#[test]
fn parse_timeout_sums_groups_in_any_order() {
    let (x, y, z) = (3u64, 7u64, 11u64);
    let sum = parse_timeout(&format!("{}h", x)).unwrap()
        + parse_timeout(&format!("{}m", y)).unwrap()
        + parse_timeout(&format!("{}s", z)).unwrap();
    assert_eq!(parse_timeout(&format!("{}h{}m{}s", x, y, z)).unwrap(), sum);
    assert_eq!(parse_timeout("15s1h").unwrap(), 3615);
    assert_eq!(parse_timeout("1m1m").unwrap(), 120);
    assert_eq!(parse_timeout("007s").unwrap(), 7);
}

#[test]
fn parse_timeout_rejects_overflow() {
    assert!(parse_timeout("9223372036854775807s").is_ok());
    assert!(parse_timeout("9223372036854775808s").is_err());
    assert!(parse_timeout("9223372036854775807h").is_err());
}

fn instance_expiring(expires_at: Option<&str>) -> ChallengeInstance {
    let mut status = ChallengeInstanceStatus::empty();
    status.expires_at = expires_at.map(|s| s.to_string());
    ChallengeInstance {
        name: "i".to_string(),
        generation: None,
        deletion_requested: false,
        finalizers: vec![],
        spec: ChallengeInstanceSpec {
            challenge_ref: ChallengeRef { name: "nginx".to_string(), namespace: None },
            owner_id: "a1b2c3d4-e5f6-7890-abcd-ef1234567890".to_string(),
            flag: "flag{test}".to_string(),
            instance_class: None,
            timeout: Some("30m".to_string()),
            termination_reason: None,
        },
        status: Some(status),
    }
}

#[test]
fn expiry_is_strictly_before_now() {
    let t = instant_of("2030-01-01T00:00:00Z").unwrap();
    let i = instance_expiring(Some("2030-01-01T00:00:00Z"));
    assert!(!is_expired(&i, t));
    assert!(is_expired(&i, t + 1_000_000));
    assert!(!is_expired(&i, t - 1));
    assert!(!is_expired(&instance_expiring(Some("not a date")), t));
    assert!(!is_expired(&instance_expiring(None), t));
}

#[test]
fn expiry_is_now_plus_timeout() {
    let now = instant_of("2030-01-01T00:00:00Z").unwrap();
    let e = calculate_expiry("30m", now).unwrap();
    assert_eq!(e, "2030-01-01T00:30:00.000000Z");
    assert_eq!(instant_of(&e), Some(now + 1800 * 1_000_000));
    assert!(matches!(calculate_expiry("soon", now), Err(Error::TimeoutParseError(_))));
}

#[test]
fn seconds_left_rounds_up_and_stops_at_zero() {
    let now = instant_of("2030-01-01T00:00:00Z").unwrap();
    let later = text_of(now + 1_500_000).unwrap();
    assert_eq!(seconds_left(&Some(later), now), Some(2));
    let earlier = text_of(now - 1).unwrap();
    assert_eq!(seconds_left(&Some(earlier), now), Some(0));
    assert_eq!(seconds_left(&Some(text_of(now).unwrap()), now), Some(0));
    assert_eq!(seconds_left(&Some("soon".to_string()), now), None);
    assert_eq!(seconds_left(&None, now), None);
}
