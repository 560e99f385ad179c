use crate::error::AuthError;
use argon2::Config;
use rand::Rng;
use vstd::prelude::*;
use vstd::utf8::encode_utf8;

verus! {

/// Bytes of fresh salt drawn for each stored credential.
pub const SALT_LEN: usize = 16;

#[verifier::external_type_specification]
#[verifier::external_body]
pub struct ExArgon2Error(argon2::Error);

/// The encoded Argon2 hash (default parameters) of `pwd` under `salt`.
pub uninterp spec fn argon2_encoded(pwd: Seq<char>, salt: Seq<u8>) -> Seq<char>;

/// Whether `pwd` verifies against the encoded hash `encoded`.
pub uninterp spec fn argon2_verifies(encoded: Seq<char>, pwd: Seq<char>) -> bool;

/// The hash accepts passwords of at most `u32::MAX` bytes.
pub open spec fn password_hashable(pwd: Seq<char>) -> bool {
    encode_utf8(pwd).len() <= u32::MAX
}

/// The hash accepts salts of 8 to `u32::MAX` bytes.
pub open spec fn valid_salt(salt: Seq<u8>) -> bool {
    8 <= salt.len() <= u32::MAX
}

/// `h` is the hash of `pwd` under some salt of the length this library draws.
pub open spec fn hashes_password(h: Seq<char>, pwd: Seq<char>) -> bool {
    exists|s: Seq<u8>| s.len() == SALT_LEN && #[trigger] argon2_encoded(pwd, s) == h
}

/// Relies on rust-argon2's `hash_encoded` with `Config::default()`: the
/// result depends on the password and salt alone, and the call fails only
/// for a salt shorter than 8 or longer than `u32::MAX` bytes or a password
/// longer than `u32::MAX` bytes (`Context::new`), which `requires` excludes.
#[verifier::external_body]
fn argon2_hash_encoded(pwd: &str, salt: &[u8]) -> (r: Result<String, argon2::Error>)
    requires
        password_hashable(pwd@),
        valid_salt(salt@),
    ensures
        r is Ok,
        r->Ok_0@ == argon2_encoded(pwd@, salt@),
{
    argon2::hash_encoded(pwd.as_bytes(), salt, &Config::default())
}

/// Relies on rust-argon2's `verify_encoded`: the result depends on its
/// arguments alone; a string that does not decode counts as no match; and a
/// hash made by `hash_encoded` with the default configuration decodes to the
/// same parameters and salt, so its own password verifies against it.
#[verifier::external_body]
fn argon2_verify_encoded(encoded: &str, pwd: &str) -> (r: bool)
    ensures
        r == argon2_verifies(encoded@, pwd@),
        forall|s: Seq<u8>|
            valid_salt(s) && password_hashable(pwd@) && #[trigger] argon2_encoded(pwd@, s)
                == encoded@ ==> r,
{
    argon2::verify_encoded(encoded, pwd.as_bytes()).unwrap_or(false)
}

/// Relies on rand's `Rng::fill` on the thread-local generator: `len` random bytes.
#[verifier::external_body]
fn random_bytes(len: usize) -> (r: Vec<u8>)
    ensures
        r@.len() == len,
{
    let mut v = vec![0u8; len];
    rand::rng().fill(&mut v[..]);
    v
}

/// Draws a fresh salt for one credential.
pub fn fresh_salt() -> (r: Vec<u8>)
    ensures
        r@.len() == SALT_LEN,
        valid_salt(r@),
{
    random_bytes(SALT_LEN)
}

/// Hashes `password` under the given salt.
pub fn hash_password_with_salt(password: &str, salt: &[u8]) -> (r: Result<String, AuthError>)
    requires
        valid_salt(salt@),
    ensures
        password_hashable(password@) ==> (r matches Ok(h) && h@ == argon2_encoded(
            password@,
            salt@,
        )),
        !password_hashable(password@) ==> r == Err::<String, AuthError>(AuthError::HashingFailed),
{
    if password.as_bytes().len() > u32::MAX as usize {
        return Err(AuthError::HashingFailed);
    }
    match argon2_hash_encoded(password, salt) {
        Ok(h) => Ok(h),
        Err(_) => Err(AuthError::HashingFailed),
    }
}

/// Hashes `password` under a freshly drawn salt.
pub fn hash_password(password: &str) -> (r: Result<String, AuthError>)
    ensures
        password_hashable(password@) ==> (r matches Ok(h) && hashes_password(h@, password@)),
        !password_hashable(password@) ==> r == Err::<String, AuthError>(AuthError::HashingFailed),
{
    let salt = fresh_salt();
    hash_password_with_salt(password, salt.as_slice())
}

/// Whether `password` verifies against the stored hash `encoded`; a hash
/// made from `password` always does.
pub fn verify_password(encoded: &str, password: &str) -> (r: bool)
    ensures
        r == argon2_verifies(encoded@, password@),
        hashes_password(encoded@, password@) && password_hashable(password@) ==> r,
{
    let r = argon2_verify_encoded(encoded, password);
    proof {
        if hashes_password(encoded@, password@) {
            let s = choose|s: Seq<u8>|
                s.len() == SALT_LEN && #[trigger] argon2_encoded(password@, s) == encoded@;
            assert(valid_salt(s));
        }
    }
    r
}

} // verus!
