use crate::account::{Account, AccountStore, AccountView};
use crate::error::AuthError;
use crate::otp::{generate_otp, is_recovery_code, RECOVERY_CODE_LEN};
use crate::password::{
    argon2_encoded,
    argon2_verifies,
    fresh_salt,
    hash_password_with_salt,
    password_hashable,
    valid_salt,
    verify_password,
    SALT_LEN,
};
use crate::token::{issue_token_at, jwt_hs256, session_expiry, unix_now, MAX_UNIX_SECS};
use vstd::prelude::*;

verus! {

/// The accounts of a repository, keyed by identifier.
pub type Accounts = Map<Seq<char>, AccountView>;

/// The value of a `Result` whose success carries a string.
pub open spec fn result_view(r: Result<String, AuthError>) -> Result<Seq<char>, AuthError> {
    match r {
        Ok(s) => Ok(s@),
        Err(e) => Err(e),
    }
}

/// The account that sign-up creates: no recovery in flight.
pub open spec fn new_account(
    id: Seq<char>,
    first: Seq<char>,
    last: Seq<char>,
    hash: Seq<char>,
) -> AccountView {
    AccountView {
        identifier: id,
        first_name: first,
        last_name: last,
        credential_hash: hash,
        recovery_code: None,
    }
}

/// Sign-up of `id` with `pwd` hashed under `salt`: the new accounts and the outcome.
pub open spec fn sign_up_spec(
    m: Accounts,
    id: Seq<char>,
    first: Seq<char>,
    last: Seq<char>,
    pwd: Seq<char>,
    salt: Seq<u8>,
) -> (Accounts, Result<(), AuthError>) {
    if m.contains_key(id) {
        (m, Err(AuthError::AccountExists))
    } else if !password_hashable(pwd) {
        (m, Err(AuthError::HashingFailed))
    } else {
        (m.insert(id, new_account(id, first, last, argon2_encoded(pwd, salt))), Ok(()))
    }
}

/// `id` has an account and `pwd` verifies against its stored hash.
pub open spec fn credentials_accepted(m: Accounts, id: Seq<char>, pwd: Seq<char>) -> bool {
    m.contains_key(id) && argon2_verifies(m[id].credential_hash, pwd)
}

/// Sign-in of `id` with `pwd` at time `issued_at`: a token for `id` that
/// expires 24 hours later, or the failure.
pub open spec fn sign_in_spec(
    m: Accounts,
    id: Seq<char>,
    pwd: Seq<char>,
    secret: Seq<u8>,
    issued_at: int,
) -> Result<Seq<char>, AuthError> {
    if !credentials_accepted(m, id, pwd) {
        Err(AuthError::InvalidCredentials)
    } else {
        match session_expiry(issued_at) {
            Some(e) => Ok(jwt_hs256(id, e, secret)),
            None => Err(AuthError::ClockOutOfRange),
        }
    }
}

/// Recovery request for `id` with the drawn `code`: the code replaces any
/// pending one and is handed back for delivery.
pub open spec fn request_recovery_spec(m: Accounts, id: Seq<char>, code: Seq<char>) -> (
    Accounts,
    Result<Seq<char>, AuthError>,
) {
    if m.contains_key(id) {
        (m.insert(id, AccountView { recovery_code: Some(code), ..m[id] }), Ok(code))
    } else {
        (m, Err(AuthError::AccountNotFound))
    }
}

/// `code` is the pending recovery code of the account `id`.
pub open spec fn recovery_pending(m: Accounts, id: Seq<char>, code: Seq<char>) -> bool {
    m.contains_key(id) && m[id].recovery_code == Some(code)
}

/// Recovery confirmation: on the pending code, the new password's hash
/// under `salt` is stored and the code is consumed.
pub open spec fn confirm_recovery_spec(
    m: Accounts,
    id: Seq<char>,
    code: Seq<char>,
    pwd: Seq<char>,
    salt: Seq<u8>,
) -> (Accounts, Result<(), AuthError>) {
    if !recovery_pending(m, id, code) {
        (m, Err(AuthError::InvalidRecoveryAttempt))
    } else if !password_hashable(pwd) {
        (m, Err(AuthError::HashingFailed))
    } else {
        (
            m.insert(
                id,
                AccountView {
                    credential_hash: argon2_encoded(pwd, salt),
                    recovery_code: None,
                    ..m[id]
                },
            ),
            Ok(()),
        )
    }
}

/// Sign-up with the password hashed under the given salt.
pub fn sign_up_with_salt(
    store: &mut AccountStore,
    identifier: String,
    first_name: String,
    last_name: String,
    password: &str,
    salt: &[u8],
) -> (r: Result<(), AuthError>)
    requires
        old(store).wf(),
        valid_salt(salt@),
    ensures
        final(store).wf(),
        final(store)@.dom().finite(),
        (final(store)@, r) == sign_up_spec(
            old(store)@,
            identifier@,
            first_name@,
            last_name@,
            password@,
            salt@,
        ),
{
    proof {
        store.lemma_view_finite();
    }
    if store.find_by_identifier(identifier.as_str()).is_some() {
        return Err(AuthError::AccountExists);
    }
    let credential_hash = match hash_password_with_salt(password, salt) {
        Ok(h) => h,
        Err(e) => {
            return Err(e);
        },
    };
    let account = Account {
        identifier,
        first_name,
        last_name,
        credential_hash,
        recovery_code: None,
    };
    match store.insert(account) {
        Ok(()) => Ok(()),
        Err(_) => Err(AuthError::AccountExists),
    }
}

/// Creates the account `identifier`; its password is hashed under a freshly
/// drawn salt. Fails with `AccountExists` if the identifier is taken.
pub fn sign_up(
    store: &mut AccountStore,
    identifier: String,
    first_name: String,
    last_name: String,
    password: &str,
) -> (r: Result<(), AuthError>)
    requires
        old(store).wf(),
    ensures
        final(store).wf(),
        final(store)@.dom().finite(),
        old(store)@.contains_key(identifier@) ==> r == Err::<(), AuthError>(
            AuthError::AccountExists,
        ),
        exists|salt: Seq<u8>|
            salt.len() == SALT_LEN && (final(store)@, r) == #[trigger] sign_up_spec(
                old(store)@,
                identifier@,
                first_name@,
                last_name@,
                password@,
                salt,
            ),
{
    let salt = fresh_salt();
    let r = sign_up_with_salt(store, identifier, first_name, last_name, password, salt.as_slice());
    r
}

/// Sign-in at the given time (Unix seconds).
pub fn sign_in_at(
    store: &AccountStore,
    identifier: &str,
    password: &str,
    secret: &[u8],
    issued_at: i64,
) -> (r: Result<String, AuthError>)
    requires
        store.wf(),
    ensures
        result_view(r) == sign_in_spec(store@, identifier@, password@, secret@, issued_at as int),
{
    let account = match store.find_by_identifier(identifier) {
        Some(a) => a,
        None => {
            return Err(AuthError::InvalidCredentials);
        },
    };
    if !verify_password(account.credential_hash.as_str(), password) {
        return Err(AuthError::InvalidCredentials);
    }
    issue_token_at(identifier, secret, issued_at)
}

/// Authenticates `identifier` with `password` and issues a session token
/// for it, expiring 24 hours after now; it succeeds exactly when the
/// credentials are accepted. An unknown identifier and a wrong password give
/// the same error.
pub fn sign_in(store: &AccountStore, identifier: &str, password: &str, secret: &[u8]) -> (r:
    Result<String, AuthError>)
    requires
        store.wf(),
    ensures
        !credentials_accepted(store@, identifier@, password@) ==> r == Err::<String, AuthError>(
            AuthError::InvalidCredentials,
        ),
        credentials_accepted(store@, identifier@, password@) ==> r is Ok,
        exists|now: int|
            0 <= now <= MAX_UNIX_SECS && result_view(r) == #[trigger] sign_in_spec(
                store@,
                identifier@,
                password@,
                secret@,
                now,
            ),
{
    let now = unix_now();
    sign_in_at(store, identifier, password, secret, now)
}

/// Recovery request with the given code.
pub fn request_recovery_with_code(store: &mut AccountStore, identifier: &str, code: String) -> (r:
    Result<String, AuthError>)
    requires
        old(store).wf(),
    ensures
        final(store).wf(),
        final(store)@.dom().finite(),
        (final(store)@, result_view(r)) == request_recovery_spec(old(store)@, identifier@, code@),
{
    let handed = code.clone();
    if store.set_recovery_code(identifier, code) {
        Ok(handed)
    } else {
        Err(AuthError::AccountNotFound)
    }
}

/// Starts a password recovery for `identifier`: draws a fresh recovery
/// code, stores it as the pending one, and returns it for delivery.
pub fn request_recovery(store: &mut AccountStore, identifier: &str) -> (r: Result<
    String,
    AuthError,
>)
    requires
        old(store).wf(),
    ensures
        final(store).wf(),
        final(store)@.dom().finite(),
        old(store)@.contains_key(identifier@) <==> r is Ok,
        exists|code: Seq<char>|
            is_recovery_code(code) && (final(store)@, result_view(r))
                == #[trigger] request_recovery_spec(old(store)@, identifier@, code),
{
    let code = generate_otp(RECOVERY_CODE_LEN);
    request_recovery_with_code(store, identifier, code)
}

/// Recovery confirmation with the new password hashed under the given salt.
pub fn confirm_recovery_with_salt(
    store: &mut AccountStore,
    identifier: &str,
    code: &str,
    new_password: &str,
    salt: &[u8],
) -> (r: Result<(), AuthError>)
    requires
        old(store).wf(),
        valid_salt(salt@),
    ensures
        final(store).wf(),
        final(store)@.dom().finite(),
        (final(store)@, r) == confirm_recovery_spec(
            old(store)@,
            identifier@,
            code@,
            new_password@,
            salt@,
        ),
{
    proof {
        store.lemma_view_finite();
    }
    let pending = match store.find_by_identifier(identifier) {
        Some(a) => match &a.recovery_code {
            Some(c) => *c == code.to_owned(),
            None => false,
        },
        None => false,
    };
    if !pending {
        return Err(AuthError::InvalidRecoveryAttempt);
    }
    let new_hash = match hash_password_with_salt(new_password, salt) {
        Ok(h) => h,
        Err(e) => {
            return Err(e);
        },
    };
    if store.reset_credential_if_code(identifier, code, new_hash) {
        Ok(())
    } else {
        Err(AuthError::InvalidRecoveryAttempt)
    }
}

/// Completes a password recovery: if `code` is the pending code of
/// `identifier`, stores the hash of `new_password` under a fresh salt and
/// consumes the code.
pub fn confirm_recovery(
    store: &mut AccountStore,
    identifier: &str,
    code: &str,
    new_password: &str,
) -> (r: Result<(), AuthError>)
    requires
        old(store).wf(),
    ensures
        final(store).wf(),
        final(store)@.dom().finite(),
        !recovery_pending(old(store)@, identifier@, code@) ==> r == Err::<(), AuthError>(
            AuthError::InvalidRecoveryAttempt,
        ) && final(store)@ == old(store)@,
        exists|salt: Seq<u8>|
            salt.len() == SALT_LEN && (final(store)@, r) == #[trigger] confirm_recovery_spec(
                old(store)@,
                identifier@,
                code@,
                new_password@,
                salt,
            ),
{
    let salt = fresh_salt();
    let r = confirm_recovery_with_salt(store, identifier, code, new_password, salt.as_slice());
    r
}

} // verus!
