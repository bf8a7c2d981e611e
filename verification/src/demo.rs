//! Demo mode login: passwords, tokens and the results of login steps.
use vstd::prelude::*;

use crate::common::AccountId;
use crate::login::RefreshToken;
use crate::outside::{base64_standard_encode, is_base64_standard_char};

verus! {

/// Demo mode password.
#[derive(Debug, Clone)]
pub struct DemoModePassword {
    pub password: String,
}

/// Token of the first demo mode login step.
#[derive(Debug, Clone)]
pub struct DemoModeLoginToken {
    pub token: String,
}

impl DemoModeLoginToken {
    /// A new random token, made as a refresh token is: 44 Base64
    /// characters of 256 random bits.
    pub fn new() -> (r: Self)
        ensures
            r.token@.len() == 44,
            forall|i: int| 0 <= i < r.token@.len() ==> is_base64_standard_char(#[trigger] r.token@[i]),
            exists|b: Seq<u8>| b.len() == 32 && r.token@ == base64_standard_encode(b),
    {
        Self { token: RefreshToken::generate_new().into_string() }
    }
}

/// Token of a demo mode session.
#[derive(Debug, Clone)]
pub struct DemoModeToken {
    pub token: String,
}

impl DemoModeToken {
    /// A new random token, made as a refresh token is: 44 Base64
    /// characters of 256 random bits.
    pub fn new() -> (r: Self)
        ensures
            r.token@.len() == 44,
            forall|i: int| 0 <= i < r.token@.len() ==> is_base64_standard_char(#[trigger] r.token@[i]),
            exists|b: Seq<u8>| b.len() == 32 && r.token@ == base64_standard_encode(b),
    {
        Self { token: RefreshToken::generate_new().into_string() }
    }
}

/// Result of the first demo mode login step.
#[derive(Debug, Clone)]
pub struct DemoModeLoginResult {
    /// This password is locked.
    pub locked: bool,
    pub token: Option<DemoModeLoginToken>,
}

impl DemoModeLoginResult {
    pub fn locked() -> (r: Self)
        ensures
            r.locked,
            r.token is None,
    {
        Self { locked: true, token: None }
    }

    pub fn token(token: DemoModeLoginToken) -> (r: Self)
        ensures
            !r.locked,
            r.token matches Some(t) && t.token@ == token.token@,
    {
        Self { locked: false, token: Some(token) }
    }
}

/// Second demo mode login step.
#[derive(Debug, Clone)]
pub struct DemoModeConfirmLogin {
    pub password: DemoModePassword,
    pub token: DemoModeLoginToken,
}

/// Result of the second demo mode login step.
#[derive(Debug, Clone)]
pub struct DemoModeConfirmLoginResult {
    /// This password is locked.
    pub locked: bool,
    pub token: Option<DemoModeToken>,
}

impl DemoModeConfirmLoginResult {
    pub fn locked() -> (r: Self)
        ensures
            r.locked,
            r.token is None,
    {
        Self { locked: true, token: None }
    }

    pub fn token(token: DemoModeToken) -> (r: Self)
        ensures
            !r.locked,
            r.token matches Some(t) && t.token@ == token.token@,
    {
        Self { locked: false, token: Some(token) }
    }
}

/// Login to an account from a demo mode session.
#[derive(Debug, Clone)]
pub struct DemoModeLoginToAccount {
    pub token: DemoModeToken,
    pub account_id: AccountId,
}

/// Demo mode ID.
#[derive(Debug, Clone, Copy, Default, PartialEq, Eq, Structural)]
pub struct DemoModeId {
    pub id: i64,
}

impl DemoModeId {
    pub fn new(id: i64) -> (r: Self)
        ensures
            r.id == id,
    {
        Self { id }
    }

    pub fn as_i64(&self) -> (r: &i64)
        ensures
            *r == self.id,
    {
        &self.id
    }
}

} // verus!
