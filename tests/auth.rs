use datalyst_auth::account::{Account, AccountStore, StoreError};
use datalyst_auth::error::AuthError;
use datalyst_auth::otp::generate_otp;
use datalyst_auth::password::{hash_password, hash_password_with_salt, verify_password};
use datalyst_auth::service::{
    confirm_recovery, confirm_recovery_with_salt, request_recovery, request_recovery_with_code,
    sign_in, sign_in_at, sign_up, sign_up_with_salt,
};
use datalyst_auth::token::issue_token_at;
use jsonwebtoken::{decode, DecodingKey, Validation};

const SECRET: &[u8] = b"test-signing-secret";

fn claims_of(token: &str, check_exp: bool) -> serde_json::Value {
    let mut validation = Validation::default();
    validation.validate_exp = check_exp;
    decode::<serde_json::Value>(token, &DecodingKey::from_secret(SECRET), &validation)
        .expect("token decodes")
        .claims
}

fn signed_up(id: &str, pwd: &str) -> AccountStore {
    let mut store = AccountStore::new();
    sign_up(&mut store, id.to_string(), "Ada".to_string(), "Lovelace".to_string(), pwd)
        .expect("sign-up succeeds");
    store
}

#[test]
fn sign_up_twice_with_same_identifier_succeeds_once() {
    let mut store = AccountStore::new();
    let first = sign_up(&mut store, "a@x.com".to_string(), "A".to_string(), "B".to_string(), "pw1");
    let second = sign_up(&mut store, "a@x.com".to_string(), "C".to_string(), "D".to_string(), "pw2");
    assert_eq!(first, Ok(()));
    assert_eq!(second, Err(AuthError::AccountExists));
    assert_eq!(store.len(), 1);
    let account = store.find_by_identifier("a@x.com").unwrap();
    assert_eq!(account.first_name, "A");
    assert!(verify_password(&account.credential_hash, "pw1"));
}

#[test]
fn sign_up_stores_hash_not_password() {
    let store = signed_up("a@x.com", "pw1");
    let account = store.find_by_identifier("a@x.com").unwrap();
    assert_ne!(account.credential_hash, "pw1");
    assert!(account.credential_hash.starts_with("$argon2id$"));
    assert_eq!(account.recovery_code, None);
}

#[test]
fn sign_up_with_salt_uses_that_salt() {
    let salt = b"0123456789abcdef";
    let mut store = AccountStore::new();
    let r = sign_up_with_salt(&mut store, "u".to_string(), "F".to_string(), "L".to_string(), "secret", salt);
    assert_eq!(r, Ok(()));
    let expected = hash_password_with_salt("secret", salt).unwrap();
    assert_eq!(store.find_by_identifier("u").unwrap().credential_hash, expected);
}

#[test]
fn hashing_twice_gives_distinct_hashes_that_both_verify() {
    let h1 = hash_password("correct horse").unwrap();
    let h2 = hash_password("correct horse").unwrap();
    assert_ne!(h1, h2);
    assert!(verify_password(&h1, "correct horse"));
    assert!(verify_password(&h2, "correct horse"));
    assert!(!verify_password(&h1, "battery staple"));
}

#[test]
fn hashing_with_same_salt_is_deterministic() {
    let salt = b"saltsaltsalt";
    let h1 = hash_password_with_salt("pw", salt).unwrap();
    let h2 = hash_password_with_salt("pw", salt).unwrap();
    assert_eq!(h1, h2);
    assert_ne!(h1, "pw");
}

#[test]
fn verify_rejects_malformed_hash() {
    assert!(!verify_password("not a hash", "pw"));
    assert!(!verify_password("", ""));
}

#[test]
fn wrong_password_and_unknown_identifier_give_same_error() {
    let store = signed_up("a@x.com", "pw1");
    let wrong = sign_in(&store, "a@x.com", "wrong", SECRET);
    let unknown = sign_in(&store, "b@x.com", "pw1", SECRET);
    assert_eq!(wrong, Err(AuthError::InvalidCredentials));
    assert_eq!(wrong, unknown);
}

#[test]
fn identifier_lookup_is_exact() {
    let store = signed_up("a@x.com", "pw1");
    assert_eq!(sign_in(&store, "A@x.com", "pw1", SECRET), Err(AuthError::InvalidCredentials));
    assert!(store.find_by_identifier("A@x.com").is_none());
}

#[test]
fn token_carries_subject_and_expires_a_day_later() {
    let store = signed_up("a@x.com", "pw1");
    let before = chrono::Utc::now().timestamp();
    let token = sign_in(&store, "a@x.com", "pw1", SECRET).unwrap();
    let after = chrono::Utc::now().timestamp();
    let claims = claims_of(&token, true);
    assert_eq!(claims["sub"], "a@x.com");
    let exp = claims["exp"].as_i64().unwrap();
    assert!(before + 86400 <= exp && exp <= after + 86400);
}

#[test]
fn sign_in_at_fixed_time_gives_exact_expiry() {
    let store = signed_up("a@x.com", "pw1");
    let token = sign_in_at(&store, "a@x.com", "pw1", SECRET, 1_700_000_000).unwrap();
    let claims = claims_of(&token, false);
    assert_eq!(claims["sub"], "a@x.com");
    assert_eq!(claims["exp"].as_i64(), Some(1_700_086_400));
    assert_eq!(
        sign_in_at(&store, "a@x.com", "nope", SECRET, 1_700_000_000),
        Err(AuthError::InvalidCredentials)
    );
}

#[test]
fn token_expiry_bounds() {
    assert_eq!(issue_token_at("s", SECRET, -86401), Err(AuthError::ClockOutOfRange));
    let t = issue_token_at("s", SECRET, -86400).unwrap();
    assert_eq!(claims_of(&t, false)["exp"].as_i64(), Some(0));
    assert!(issue_token_at("s", SECRET, i64::MAX - 86400).is_ok());
    assert_eq!(issue_token_at("s", SECRET, i64::MAX - 86399), Err(AuthError::ClockOutOfRange));
    assert_eq!(issue_token_at("s", SECRET, i64::MAX), Err(AuthError::ClockOutOfRange));
}

#[test]
fn token_depends_on_secret() {
    let a = issue_token_at("s", b"one", 10).unwrap();
    let b = issue_token_at("s", b"two", 10).unwrap();
    assert_ne!(a, b);
    assert_eq!(a, issue_token_at("s", b"one", 10).unwrap());
}

#[test]
fn confirm_recovery_succeeds_once_per_code() {
    let mut store = signed_up("a@x.com", "pw1");
    let code = request_recovery(&mut store, "a@x.com").unwrap();
    assert_eq!(confirm_recovery(&mut store, "a@x.com", &code, "pw2"), Ok(()));
    assert_eq!(
        confirm_recovery(&mut store, "a@x.com", &code, "pw3"),
        Err(AuthError::InvalidRecoveryAttempt)
    );
    let account = store.find_by_identifier("a@x.com").unwrap();
    assert_eq!(account.recovery_code, None);
    assert!(verify_password(&account.credential_hash, "pw2"));
}

#[test]
fn confirm_recovery_rejects_wrong_code_and_unknown_identifier() {
    let mut store = signed_up("a@x.com", "pw1");
    assert_eq!(
        confirm_recovery(&mut store, "a@x.com", "123456", "pw2"),
        Err(AuthError::InvalidRecoveryAttempt)
    );
    request_recovery_with_code(&mut store, "a@x.com", "111111".to_string()).unwrap();
    assert_eq!(
        confirm_recovery(&mut store, "a@x.com", "222222", "pw2"),
        Err(AuthError::InvalidRecoveryAttempt)
    );
    assert_eq!(
        confirm_recovery(&mut store, "b@x.com", "111111", "pw2"),
        Err(AuthError::InvalidRecoveryAttempt)
    );
    assert_eq!(
        store.find_by_identifier("a@x.com").unwrap().recovery_code,
        Some("111111".to_string())
    );
}

#[test]
fn newer_recovery_code_replaces_older() {
    let mut store = signed_up("a@x.com", "pw1");
    request_recovery_with_code(&mut store, "a@x.com", "111111".to_string()).unwrap();
    request_recovery_with_code(&mut store, "a@x.com", "222222".to_string()).unwrap();
    assert_eq!(
        confirm_recovery_with_salt(&mut store, "a@x.com", "111111", "pw2", b"saltsalt"),
        Err(AuthError::InvalidRecoveryAttempt)
    );
    assert_eq!(
        confirm_recovery_with_salt(&mut store, "a@x.com", "222222", "pw2", b"saltsalt"),
        Ok(())
    );
    let expected = hash_password_with_salt("pw2", b"saltsalt").unwrap();
    assert_eq!(store.find_by_identifier("a@x.com").unwrap().credential_hash, expected);
}

#[test]
fn request_recovery_for_unknown_identifier_fails() {
    let mut store = signed_up("a@x.com", "pw1");
    assert_eq!(request_recovery(&mut store, "b@x.com"), Err(AuthError::AccountNotFound));
    assert_eq!(store.find_by_identifier("a@x.com").unwrap().recovery_code, None);
}

#[test]
fn recovery_codes_are_six_nonzero_digits() {
    let mut store = signed_up("a@x.com", "pw1");
    for _ in 0..50 {
        let code = request_recovery(&mut store, "a@x.com").unwrap();
        assert_eq!(code.chars().count(), 6);
        assert!(code.chars().all(|c| ('1'..='9').contains(&c)));
        assert_eq!(store.find_by_identifier("a@x.com").unwrap().recovery_code, Some(code));
    }
}

#[test]
fn generate_otp_lengths() {
    assert_eq!(generate_otp(0), "");
    for n in [1usize, 6, 40] {
        let code = generate_otp(n);
        assert_eq!(code.len(), n);
        assert!(code.bytes().all(|b| (b'1'..=b'9').contains(&b)));
    }
}

#[test]
fn end_to_end_scenario() {
    let mut store = AccountStore::new();
    assert_eq!(sign_up(&mut store, "a@x.com".to_string(), "A".to_string(), "B".to_string(), "pw1"), Ok(()));
    assert!(sign_in(&store, "a@x.com", "pw1", SECRET).is_ok());
    assert_eq!(sign_in(&store, "a@x.com", "wrong", SECRET), Err(AuthError::InvalidCredentials));
    let code = request_recovery(&mut store, "a@x.com").unwrap();
    assert_eq!(store.find_by_identifier("a@x.com").unwrap().recovery_code, Some(code.clone()));
    assert_eq!(confirm_recovery(&mut store, "a@x.com", &code, "pw2"), Ok(()));
    assert!(sign_in(&store, "a@x.com", "pw1", SECRET).is_err());
    assert!(sign_in(&store, "a@x.com", "pw2", SECRET).is_ok());
}

#[test]
fn store_insert_rejects_duplicate() {
    let mut store = AccountStore::new();
    let account = |first: &str| Account {
        identifier: "id".to_string(),
        first_name: first.to_string(),
        last_name: String::new(),
        credential_hash: "h".to_string(),
        recovery_code: None,
    };
    assert_eq!(store.insert(account("one")), Ok(()));
    assert_eq!(store.insert(account("two")), Err(StoreError::DuplicateKey));
    assert_eq!(store.len(), 1);
    assert_eq!(store.find_by_identifier("id").unwrap().first_name, "one");
}

#[test]
fn store_conditional_reset() {
    let mut store = AccountStore::new();
    store
        .insert(Account {
            identifier: "id".to_string(),
            first_name: String::new(),
            last_name: String::new(),
            credential_hash: "old".to_string(),
            recovery_code: None,
        })
        .unwrap();
    assert!(!store.reset_credential_if_code("id", "123", "new".to_string()));
    assert!(store.set_recovery_code("id", "123".to_string()));
    assert!(!store.set_recovery_code("other", "123".to_string()));
    assert!(!store.reset_credential_if_code("id", "124", "new".to_string()));
    assert!(store.reset_credential_if_code("id", "123", "new".to_string()));
    let account = store.find_by_identifier("id").unwrap();
    assert_eq!(account.credential_hash, "new");
    assert_eq!(account.recovery_code, None);
}

#[test]
fn error_messages() {
    assert_eq!(AuthError::AccountExists.message(), "An account with this email already exists");
    assert_eq!(AuthError::AccountNotFound.message(), "Email not found");
    assert_eq!(AuthError::InvalidCredentials.message(), "Invalid email or password");
    assert_eq!(AuthError::InvalidRecoveryAttempt.message(), "Invalid OTP or email");
    assert!(!AuthError::HashingFailed.message().is_empty());
}
