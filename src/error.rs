use vstd::prelude::*;

verus! {

/// The failures an authentication operation reports to its caller.
#[derive(Debug, Clone, Copy, PartialEq, Eq, Structural)]
pub enum AuthError {
    /// Sign-up for an identifier that already has an account.
    AccountExists,
    /// Recovery requested for an identifier without an account.
    AccountNotFound,
    /// Unknown identifier or wrong password; the two are not told apart.
    InvalidCredentials,
    /// Unknown identifier, or a code that is not the pending one.
    InvalidRecoveryAttempt,
    /// The password could not be hashed (longer than the hash accepts).
    HashingFailed,
    /// The session token could not be encoded.
    TokenFailed,
    /// The issuing time lies where no expiry can be represented.
    ClockOutOfRange,
}

impl AuthError {
    /// The reason shown to the caller.
    pub fn message(&self) -> (r: String)
        ensures
            r@ == match *self {
                AuthError::AccountExists => "An account with this email already exists"@,
                AuthError::AccountNotFound => "Email not found"@,
                AuthError::InvalidCredentials => "Invalid email or password"@,
                AuthError::InvalidRecoveryAttempt => "Invalid OTP or email"@,
                AuthError::HashingFailed => "Password hashing failed"@,
                AuthError::TokenFailed => "Session token could not be encoded"@,
                AuthError::ClockOutOfRange => "Issuing time out of range"@,
            },
    {
        let s: &str = match self {
            AuthError::AccountExists => "An account with this email already exists",
            AuthError::AccountNotFound => "Email not found",
            AuthError::InvalidCredentials => "Invalid email or password",
            AuthError::InvalidRecoveryAttempt => "Invalid OTP or email",
            AuthError::HashingFailed => "Password hashing failed",
            AuthError::TokenFailed => "Session token could not be encoded",
            AuthError::ClockOutOfRange => "Issuing time out of range",
        };
        s.to_owned()
    }
}

} // verus!
