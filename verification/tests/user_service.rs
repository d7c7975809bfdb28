use owo::error::ApiError;
use owo::security::{
    check_password_length, hash_password, hash_token, random_token, registration_allowed,
    session_is_live, verify_password,
};
use owo::calendar::{parse_rfc3339, stamp_passed};
use owo::provisioning::{missing_default_accounts, missing_seed_categories, seed_categories};
use owo::users::{
    bearer_token, check_lockout, check_session_owner, Config, CreateUserRequest, PasswordChangeRequest,
    RegisterRequest, UserService,
};

#[test]
fn hash_password_is_not_plaintext() {
    let hash = hash_password("secret123").unwrap();
    assert_ne!(hash, "secret123");
    assert!(!hash.is_empty());
    // argon2 PHC format
    assert!(hash.starts_with("$argon2"));
}

#[test]
fn hash_password_produces_different_hashes() {
    let h1 = hash_password("secret123").unwrap();
    let h2 = hash_password("secret123").unwrap();
    // salts differ per call
    assert_ne!(h1, h2);
}

#[test]
fn hash_password_uses_argon2id() {
    let hash = hash_password("correct horse battery").unwrap();
    assert!(hash.starts_with("$argon2id$"));
}

#[test]
fn new_user_hashes_password_and_keeps_fields() {
    let req = CreateUserRequest {
        email: "test@example.com".to_string(),
        password: "secret123".to_string(),
        full_name: Some("Test User".to_string()),
    };
    let user = UserService::new_user(req).unwrap();
    assert_eq!(user.email, "test@example.com");
    assert_eq!(user.full_name, "Test User");
    assert_ne!(user.password_hash, "secret123");
    assert!(user.password_hash.starts_with("$argon2id$"));
}

#[test]
fn new_user_without_name_has_empty_name() {
    let req = CreateUserRequest {
        email: "a@b.c".to_string(),
        password: "pw".to_string(),
        full_name: None,
    };
    let user = UserService::new_user(req).unwrap();
    assert_eq!(user.full_name, "");
}

fn register(password: &str) -> RegisterRequest {
    RegisterRequest {
        email: "a@b.c".to_string(),
        password: password.to_string(),
        display_name: "A".to_string(),
        default_currency: "BRL".to_string(),
        locale: "pt-BR".to_string(),
        device_id: "d1".to_string(),
        device_name: "phone".to_string(),
    }
}

#[test]
fn register_refused_when_closed() {
    let r = register("long enough password").check(false);
    assert!(matches!(r, Err(ApiError::Forbidden)));
}

#[test]
fn register_refuses_short_password() {
    match register("short").check(true) {
        Err(ApiError::Validation { field, reason }) => {
            assert_eq!(field, "password");
            assert_eq!(reason, "min 12 chars");
        }
        other => panic!("unexpected {:?}", other),
    }
    assert!(register("exactly12chr").check(true).is_ok());
    assert!(register("elevenchars").check(true).is_err());
}

#[test]
fn password_change_checks_new_password() {
    let p = PasswordChangeRequest {
        current_password: "x".to_string(),
        new_password: "tiny".to_string(),
    };
    match p.check() {
        Err(ApiError::Validation { field, reason }) => {
            assert_eq!(field, "new_password");
            assert_eq!(reason, "min 12 chars");
        }
        other => panic!("unexpected {:?}", other),
    }
    let ok = PasswordChangeRequest {
        current_password: "x".to_string(),
        new_password: "a much longer one".to_string(),
    };
    assert!(ok.check().is_ok());
}

#[test]
fn password_length_counts_bytes() {
    // six two-byte characters are twelve bytes
    assert!(check_password_length("éééééé", "password").is_ok());
    assert!(check_password_length("ééééé", "password").is_err());
}

#[test]
fn lockout_in_future_is_rate_limited() {
    let t = 1704067200; // 2024-01-01T00:00:00Z
    let lock = Some("2024-01-01T00:15:00Z");
    assert!(matches!(check_lockout(lock, t, 0), Err(ApiError::RateLimited)));
    assert!(check_lockout(lock, t + 900, 0).is_ok());
    assert!(matches!(check_lockout(lock, t + 899, 999_999_999), Err(ApiError::RateLimited)));
    assert!(check_lockout(Some("2024-01-01 00:15:00"), t, 0).is_ok());
    assert!(check_lockout(None, t, 0).is_ok());
}

#[test]
fn rfc3339_instants() {
    assert_eq!(parse_rfc3339("2024-01-01T00:00:00Z"), Some((1704067200, 0)));
    assert_eq!(parse_rfc3339("2024-01-01T00:00:00.5+01:00"), Some((1704063600, 500_000_000)));
    assert_eq!(parse_rfc3339("yesterday"), None);
    assert_eq!(stamp_passed("2024-01-01T00:00:00Z", 1704067200, 0, true), Some(true));
    assert_eq!(stamp_passed("2024-01-01T00:00:00Z", 1704067200, 0, false), Some(false));
    assert_eq!(stamp_passed("2024-01-01T00:00:00Z", 1704067199, 999_999_999, true), Some(false));
    assert_eq!(stamp_passed("2024-01-01T00:00:00Z", 1704067200, 1, false), Some(true));
    assert_eq!(stamp_passed("x", 0, 0, true), None);
}

#[test]
fn session_owner_checks() {
    assert!(matches!(check_session_owner(None, "u1"), Err(ApiError::NotFound)));
    assert!(matches!(check_session_owner(Some("u2"), "u1"), Err(ApiError::Forbidden)));
    assert!(check_session_owner(Some("u1"), "u1").is_ok());
}

#[test]
fn config_defaults_and_registration_setting() {
    let c = Config::from_vars(None, None, None);
    assert_eq!(c.database_url, "sqlite://owo.db?mode=rwc");
    assert_eq!(c.bind_addr, "127.0.0.1:8080");
    assert!(c.allow_registration);
    let c = Config::from_vars(Some("sqlite::memory:".to_string()), Some("0.0.0.0:80".to_string()), Some("false"));
    assert_eq!(c.database_url, "sqlite::memory:");
    assert_eq!(c.bind_addr, "0.0.0.0:80");
    assert!(!c.allow_registration);
    assert!(!Config::from_vars(None, None, Some("0")).allow_registration);
    assert!(Config::from_vars(None, None, Some("no")).allow_registration);
    assert!(registration_allowed(Some("true")));
}

#[test]
fn token_hash_is_sha256() {
    let h = hash_token("abc");
    let hex: String = h.iter().map(|b| format!("{:02x}", b)).collect();
    assert_eq!(hex, "ba7816bf8f01cfea414140de5dae2223b00361a396177a9cb410ff61f20015ad");
}

#[test]
fn random_tokens_are_43_url_safe_chars_and_differ() {
    let a = random_token();
    let b = random_token();
    assert_eq!(a.len(), 43);
    assert!(a.chars().all(|c| c.is_ascii_alphanumeric() || c == '-' || c == '_'));
    assert_ne!(a, b);
}

#[test]
fn session_liveness() {
    let exp = "2024-04-01T12:00:00.000Z";
    let t = 1711972800; // 2024-04-01T12:00:00Z
    assert!(session_is_live(false, exp, t - 1, 0));
    assert!(!session_is_live(false, exp, t, 0));
    assert!(!session_is_live(false, exp, t + 10, 0));
    assert!(!session_is_live(true, exp, t - 1, 0));
    assert!(session_is_live(false, "not a time", t, 0));
}

#[test]
fn bearer_tokens() {
    assert_eq!(bearer_token(Some("Bearer abc.def")).unwrap(), "abc.def");
    assert_eq!(bearer_token(Some("Bearer ")).unwrap(), "");
    assert!(matches!(bearer_token(Some("bearer abc")), Err(ApiError::Unauthenticated)));
    assert!(matches!(bearer_token(Some("Basic abc")), Err(ApiError::Unauthenticated)));
    assert!(matches!(bearer_token(None), Err(ApiError::Unauthenticated)));
}

#[test]
fn seed_categories_in_order() {
    assert_eq!(
        seed_categories(),
        vec!["Food", "Leisure", "Transport", "Health", "Education", "Clothes", "Home", "Pet", "Subscriptions", "Other"]
    );
}

#[test]
fn provisioning_adds_only_missing_and_is_idempotent() {
    let existing = vec!["Pet".to_string(), "Food".to_string(), "Travel".to_string()];
    let missing = missing_seed_categories(&existing);
    assert_eq!(
        missing,
        vec!["Leisure", "Transport", "Health", "Education", "Clothes", "Home", "Subscriptions", "Other"]
    );
    let mut all = existing.clone();
    all.extend(missing.iter().map(|s| s.to_string()));
    assert!(missing_seed_categories(&all).is_empty());
    assert_eq!(missing_seed_categories(&Vec::new()).len(), 10);
}

#[test]
fn stored_hashes_verify_only_their_password() {
    let hash = hash_password("correct horse battery").unwrap();
    assert!(verify_password("correct horse battery", &hash).unwrap());
    assert!(!verify_password("wrong horse battery", &hash).unwrap());
    match verify_password("x", "not a phc string") {
        Err(ApiError::Internal(m)) => assert_eq!(m, "stored password hash is unreadable"),
        other => panic!("unexpected {:?}", other),
    }
}

fn pairs(v: &[(&str, &str)]) -> Vec<(String, String)> {
    v.iter().map(|(k, n)| (k.to_string(), n.to_string())).collect()
}

#[test]
fn default_accounts_fill_only_what_is_missing() {
    assert_eq!(
        missing_default_accounts(&Vec::new()),
        vec![("revenue", "Income"), ("expense", "Expense"), ("asset", "Carteira")]
    );
    let some = pairs(&[("asset", "Carteira"), ("revenue", "Salary")]);
    assert_eq!(missing_default_accounts(&some), vec![("expense", "Expense")]);
    let mut after = some.clone();
    for (k, n) in missing_default_accounts(&some) {
        after.push((k.to_string(), n.to_string()));
    }
    assert!(missing_default_accounts(&after).is_empty());
    let other_asset = pairs(&[("asset", "Bank"), ("revenue", "Income"), ("expense", "Expense")]);
    assert_eq!(missing_default_accounts(&other_asset), vec![("asset", "Carteira")]);
}
