//! Credential issuance and recovery: accounts, password hashing, session
//! tokens and one-time recovery codes, with verified contracts.

pub mod error;
pub mod otp;
pub mod account;
pub mod password;
pub mod token;
pub mod service;
pub mod laws;
