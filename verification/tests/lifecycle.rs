use token_service::error::MainError;
use token_service::lifecycle::{
    expires_from_ttl, issue, lookup, relative_ttl, resolve_value, revoke, token_from_replies,
};
use token_service::store::Store;
use token_service::token::{generate, TokenPayload, TOKEN_LEN};

fn is_token_string(s: &str) -> bool {
    s.len() == TOKEN_LEN && s.chars().all(|c| c.is_ascii_alphanumeric())
}

#[test]
fn issue_without_value_generates_token() {
    let mut store = Store::new();
    let payload = TokenPayload {
        value: None,
        user: String::from("alice"),
        expires: None,
    };
    let issued = issue(&mut store, payload);
    assert!(is_token_string(&issued.value));
    assert_eq!(issued.user, "alice");
    assert_eq!(issued.expires, None);

    let found = lookup(&store, &issued.value, 1000).unwrap();
    assert_eq!(found.user, "alice");
}

#[test]
fn issue_same_value_twice_keeps_second_user() {
    let mut store = Store::new();
    let first = TokenPayload {
        value: Some(String::from("tok")),
        user: String::from("alice"),
        expires: None,
    };
    let second = TokenPayload {
        value: Some(String::from("tok")),
        user: String::from("bob"),
        expires: None,
    };
    issue(&mut store, first);
    issue(&mut store, second);

    let found = lookup(&store, &String::from("tok"), 1000).unwrap();
    assert_eq!(found.user, "bob");
}

#[test]
fn lookup_never_issued_is_not_found() {
    let store = Store::new();
    let r = lookup(&store, &String::from("nope"), 1000);
    match r {
        Err(MainError::NotFound(msg)) => assert_eq!(msg, "Token nope not found"),
        _ => panic!("expected NotFound"),
    }
}

#[test]
fn revoke_then_lookup_is_not_found() {
    let mut store = Store::new();
    let payload = TokenPayload {
        value: Some(String::from("tok")),
        user: String::from("alice"),
        expires: None,
    };
    issue(&mut store, payload);
    assert!(revoke(&mut store, &String::from("tok")).is_ok());
    assert!(matches!(
        lookup(&store, &String::from("tok"), 1000),
        Err(MainError::NotFound(_))
    ));
}

#[test]
fn revoke_never_issued_succeeds() {
    let mut store = Store::new();
    assert!(revoke(&mut store, &String::from("absent")).is_ok());
    assert!(revoke(&mut store, &String::from("absent")).is_ok());
}

#[test]
fn expiry_round_trip_is_exact() {
    let now: u64 = 5000;
    let mut store = Store::new();
    let payload = TokenPayload {
        value: Some(String::from("tok")),
        user: String::from("alice"),
        expires: Some(now + 100),
    };
    issue(&mut store, payload);
    let found = lookup(&store, &String::from("tok"), now).unwrap();
    assert_eq!(found.expires, Some(now + 100));
}

#[test]
fn no_expiry_stays_retrievable_indefinitely() {
    let mut store = Store::new();
    let payload = TokenPayload {
        value: Some(String::from("tok")),
        user: String::from("alice"),
        expires: None,
    };
    issue(&mut store, payload);
    for now in [0u64, 1, 1_000_000, u64::MAX] {
        let found = lookup(&store, &String::from("tok"), now).unwrap();
        assert_eq!(found.user, "alice");
        assert_eq!(found.expires, None);
    }
}

#[test]
fn scenario_alice_full_lifecycle() {
    let now: u64 = 1700000000;
    let mut store = Store::new();
    let payload = TokenPayload {
        value: None,
        user: String::from("alice"),
        expires: None,
    };
    let issued = issue(&mut store, payload);
    assert!(is_token_string(&issued.value));
    assert_eq!(issued.user, "alice");
    assert_eq!(issued.expires, None);

    let found = lookup(&store, &issued.value, now).unwrap();
    assert_eq!(found.value, issued.value);
    assert_eq!(found.user, issued.user);
    assert_eq!(found.expires, issued.expires);

    assert!(revoke(&mut store, &issued.value).is_ok());
    assert!(matches!(
        lookup(&store, &issued.value, now),
        Err(MainError::NotFound(_))
    ));
}

#[test]
fn scenario_bob_token_expires() {
    let now: u64 = 1700000000;
    let mut store = Store::new();
    let payload = TokenPayload {
        value: Some(String::from("tok1")),
        user: String::from("bob"),
        expires: Some(now + 60),
    };
    let issued = issue(&mut store, payload);
    assert_eq!(issued.value, "tok1");
    assert_eq!(issued.user, "bob");
    assert_eq!(issued.expires, Some(now + 60));

    let found = lookup(&store, &String::from("tok1"), now).unwrap();
    assert_eq!(found.user, "bob");
    assert_eq!(found.expires, Some(now + 60));

    // Fast-forward the clock past the deadline: the backend's time-to-live
    // has elapsed and the token is gone.
    assert!(matches!(
        lookup(&store, &String::from("tok1"), now + 60),
        Err(MainError::NotFound(_))
    ));
    assert!(matches!(
        lookup(&store, &String::from("tok1"), now + 61),
        Err(MainError::NotFound(_))
    ));
}

#[test]
fn issue_with_past_expiry_is_immediately_stale() {
    let now: u64 = 1000;
    let mut store = Store::new();
    let payload = TokenPayload {
        value: Some(String::from("tok")),
        user: String::from("alice"),
        expires: Some(now),
    };
    issue(&mut store, payload);
    assert!(matches!(
        lookup(&store, &String::from("tok"), now),
        Err(MainError::NotFound(_))
    ));
}

#[test]
fn relative_ttl_values() {
    assert_eq!(relative_ttl(100, 40), 60);
    assert_eq!(relative_ttl(40, 100), 0);
    assert_eq!(relative_ttl(100, 100), 0);
    assert_eq!(relative_ttl(u64::MAX, 0), u64::MAX);
}

#[test]
fn expires_from_ttl_values() {
    assert_eq!(expires_from_ttl(Some(60), 100), Some(160));
    assert_eq!(expires_from_ttl(Some(0), 100), Some(100));
    assert_eq!(expires_from_ttl(Some(-1), 100), None);
    assert_eq!(expires_from_ttl(Some(-2), 100), None);
    assert_eq!(expires_from_ttl(None, 100), None);
}

#[test]
fn token_from_replies_values() {
    let value = String::from("tok1");
    let ok = token_from_replies(&value, Some(String::from("bob")), Some(60), 100).unwrap();
    assert_eq!(ok.value, "tok1");
    assert_eq!(ok.user, "bob");
    assert_eq!(ok.expires, Some(160));

    let no_ttl = token_from_replies(&value, Some(String::from("bob")), None, 100).unwrap();
    assert_eq!(no_ttl.expires, None);

    match token_from_replies(&value, None, None, 100) {
        Err(MainError::NotFound(msg)) => assert_eq!(msg, "Token tok1 not found"),
        _ => panic!("expected NotFound"),
    }
}

#[test]
fn generated_tokens_are_fixed_length_alphanumeric() {
    for _ in 0..32 {
        let t = generate();
        assert!(is_token_string(&t));
    }
}

#[test]
fn resolve_value_echoes_or_generates() {
    let echoed = resolve_value(Some(String::from("chosen")));
    assert_eq!(echoed, "chosen");
    let fresh = resolve_value(None);
    assert!(is_token_string(&fresh));
}
