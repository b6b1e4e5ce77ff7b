//! What access and refresh tokens claim, and when they lapse.

use vstd::prelude::*;
use crate::auth::{UserModel, UserRole};
use crate::util::{DateTime, ObjectId};

verus! {

/// How long a refresh token lasts: one week, in seconds.
pub const REFRESH_TOKEN_SECONDS: i64 = 604_800;

/// How long an access token lasts: ten minutes, in seconds.
pub const ACCESS_TOKEN_SECONDS: i64 = 600;

/// Reads the clock with `time::OffsetDateTime::now_utc` and takes its Unix
/// timestamp, in seconds. Nothing is claimed of it.
#[verifier::external_body]
pub fn current_timestamp() -> (seconds: i64) {
    time::OffsetDateTime::now_utc().unix_timestamp()
}

/// Whether a token that lapses at the second `exp` has lapsed by the second
/// `now`: it holds through its last second and has lapsed after it.
pub open spec fn lapsed_by(exp: i64, now: i64) -> bool {
    exp < now
}

/// What a refresh token claims: its own identifier, the user it was given
/// to, and the second at which it lapses.
#[derive(Clone, Copy, Debug)]
pub struct RefreshTokenClaims {
    pub sub: ObjectId,
    pub user_id: ObjectId,
    pub exp: i64,
}

impl RefreshTokenClaims {
    /// Whether the token has lapsed by the second `now`.
    pub fn is_expired_at(&self, now: i64) -> (r: bool)
        ensures
            r == lapsed_by(self.exp, now),
    {
        self.exp < now
    }

    /// Whether the token has lapsed by now: by the second that the clock
    /// gives, whichever that is. A token that lapses at the last second
    /// there is has therefore never lapsed.
    pub fn is_expired(&self) -> (r: bool)
        ensures
            exists|now: i64| r == lapsed_by(self.exp, now),
            self.exp == i64::MAX ==> !r,
    {
        let now = current_timestamp();
        self.is_expired_at(now)
    }
}

/// What an access token claims: the user, their role, and the second at
/// which it lapses.
#[derive(Clone, Copy, Debug)]
pub struct AccessTokenClaims {
    pub sub: ObjectId,
    pub user_role: UserRole,
    pub exp: i64,
}

impl AccessTokenClaims {
    /// Whether the token has lapsed by the second `now`.
    pub fn is_expired_at(&self, now: i64) -> (r: bool)
        ensures
            r == lapsed_by(self.exp, now),
    {
        self.exp < now
    }

    /// Whether the token has lapsed by now: by the second that the clock
    /// gives, whichever that is. A token that lapses at the last second
    /// there is has therefore never lapsed.
    pub fn is_expired(&self) -> (r: bool)
        ensures
            exists|now: i64| r == lapsed_by(self.exp, now),
            self.exp == i64::MAX ==> !r,
    {
        let now = current_timestamp();
        self.is_expired_at(now)
    }

    /// The claims of an access token for `user` that lapses at `exp`.
    pub fn for_user(user: &UserModel, exp: i64) -> (claims: AccessTokenClaims)
        ensures
            claims.sub@ == user.id@,
            claims.user_role == user.role,
            claims.exp == exp,
    {
        AccessTokenClaims { sub: user.id, user_role: user.role, exp }
    }
}

/// A refresh token as it is stored: under its identifier, for its user, with
/// the token hashed.
#[derive(Clone, Debug)]
pub struct RefreshTokenModel {
    pub id: ObjectId,
    pub user_id: ObjectId,
    pub token: String,
    pub expired_at: DateTime,
}

/// An access token and the second at which it lapses.
#[derive(Clone, Debug)]
pub struct GenerateAccessTokenResponse {
    pub expired_at: i64,
    pub token: String,
}

/// The second at which a refresh token issued at `now` lapses, where the
/// clock leaves room for it.
pub fn refresh_token_expiry(now: i64) -> (exp: Option<i64>)
    ensures
        exp.is_some() == (now + REFRESH_TOKEN_SECONDS <= i64::MAX),
        exp.is_some() ==> exp.unwrap() == now + REFRESH_TOKEN_SECONDS,
{
    now.checked_add(REFRESH_TOKEN_SECONDS)
}

/// The second at which an access token issued at `now` lapses, where the
/// clock leaves room for it.
pub fn access_token_expiry(now: i64) -> (exp: Option<i64>)
    ensures
        exp.is_some() == (now + ACCESS_TOKEN_SECONDS <= i64::MAX),
        exp.is_some() ==> exp.unwrap() == now + ACCESS_TOKEN_SECONDS,
{
    now.checked_add(ACCESS_TOKEN_SECONDS)
}

/// The claims of a refresh token `id` for `user` that lapses at `exp`.
pub fn refresh_claims(id: ObjectId, user: &UserModel, exp: i64) -> (claims: RefreshTokenClaims)
    ensures
        claims.sub@ == id@,
        claims.user_id@ == user.id@,
        claims.exp == exp,
{
    RefreshTokenClaims { sub: id, user_id: user.id, exp }
}

/// The record of a refresh token `id` for `user`, given the token's hash and
/// the instant at which it lapses.
pub fn refresh_token_model(id: ObjectId, user: &UserModel, hashed: String, expired_at: DateTime) -> (model:
    RefreshTokenModel)
    ensures
        model.id@ == id@,
        model.user_id@ == user.id@,
        model.token@ == hashed@,
        model.expired_at == expired_at,
{
    RefreshTokenModel { id, user_id: user.id, token: hashed, expired_at }
}

} // verus!
