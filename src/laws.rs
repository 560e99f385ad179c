use crate::error::AuthError;
use crate::password::{argon2_verifies, password_hashable, valid_salt};
use crate::service::{
    confirm_recovery_spec,
    request_recovery_spec,
    sign_in_spec,
    sign_up_spec,
    Accounts,
};
use vstd::prelude::*;

verus! {

/// Signing up twice with the same fresh identifier succeeds the first time
/// and fails the second time with `AccountExists`, leaving the accounts as
/// the first call made them: one account more than before.
pub proof fn law_sign_up_succeeds_once(
    m: Accounts,
    id: Seq<char>,
    first1: Seq<char>,
    last1: Seq<char>,
    pwd1: Seq<char>,
    salt1: Seq<u8>,
    first2: Seq<char>,
    last2: Seq<char>,
    pwd2: Seq<char>,
    salt2: Seq<u8>,
)
    requires
        m.dom().finite(),
        !m.contains_key(id),
        password_hashable(pwd1),
        valid_salt(salt1),
    ensures
        ({
            let (m1, r1) = sign_up_spec(m, id, first1, last1, pwd1, salt1);
            let (m2, r2) = sign_up_spec(m1, id, first2, last2, pwd2, salt2);
            &&& r1 is Ok
            &&& m1.contains_key(id)
            &&& m1.dom().finite()
            &&& m1.len() == m.len() + 1
            &&& r2 == Err::<(), AuthError>(AuthError::AccountExists)
            &&& m2 == m1
        }),
{
}

/// Sign-in under an existing identifier with a password that does not
/// verify, and sign-in under an identifier without an account, give the
/// same error.
pub proof fn law_sign_in_does_not_enumerate(
    m: Accounts,
    known: Seq<char>,
    wrong_pwd: Seq<char>,
    unknown: Seq<char>,
    any_pwd: Seq<char>,
    secret: Seq<u8>,
    issued_at: int,
)
    requires
        m.contains_key(known),
        !argon2_verifies(m[known].credential_hash, wrong_pwd),
        !m.contains_key(unknown),
    ensures
        sign_in_spec(m, known, wrong_pwd, secret, issued_at) == sign_in_spec(
            m,
            unknown,
            any_pwd,
            secret,
            issued_at,
        ),
        sign_in_spec(m, known, wrong_pwd, secret, issued_at) == Err::<Seq<char>, AuthError>(
            AuthError::InvalidCredentials,
        ),
{
}

/// An issued recovery code confirms once: after a recovery request for an
/// existing account, confirming with the issued code succeeds, and a second
/// confirmation with the same identifier and code fails with
/// `InvalidRecoveryAttempt` and changes nothing.
pub proof fn law_recovery_code_single_use(
    m: Accounts,
    id: Seq<char>,
    code: Seq<char>,
    pwd1: Seq<char>,
    salt1: Seq<u8>,
    pwd2: Seq<char>,
    salt2: Seq<u8>,
)
    requires
        m.contains_key(id),
        password_hashable(pwd1),
        valid_salt(salt1),
    ensures
        ({
            let (m1, r1) = request_recovery_spec(m, id, code);
            let (m2, r2) = confirm_recovery_spec(m1, id, code, pwd1, salt1);
            let (m3, r3) = confirm_recovery_spec(m2, id, code, pwd2, salt2);
            &&& r1 == Ok::<Seq<char>, AuthError>(code)
            &&& r2 is Ok
            &&& r3 == Err::<(), AuthError>(AuthError::InvalidRecoveryAttempt)
            &&& m3 == m2
        }),
{
    let (m1, r1) = request_recovery_spec(m, id, code);
    let (m2, r2) = confirm_recovery_spec(m1, id, code, pwd1, salt1);
    assert(m2[id].recovery_code == None::<Seq<char>>);
}

/// A second confirmation after any successful one fails with
/// `InvalidRecoveryAttempt`: success consumes the code.
pub proof fn law_confirm_consumes_code(
    m: Accounts,
    id: Seq<char>,
    code: Seq<char>,
    pwd1: Seq<char>,
    salt1: Seq<u8>,
    pwd2: Seq<char>,
    salt2: Seq<u8>,
)
    ensures
        ({
            let (m1, r1) = confirm_recovery_spec(m, id, code, pwd1, salt1);
            r1 is Ok ==> confirm_recovery_spec(m1, id, code, pwd2, salt2) == (
                m1,
                Err::<(), AuthError>(AuthError::InvalidRecoveryAttempt),
            )
        }),
{
    let (m1, r1) = confirm_recovery_spec(m, id, code, pwd1, salt1);
    if r1 is Ok {
        assert(m1[id].recovery_code == None::<Seq<char>>);
    }
}

} // verus!
