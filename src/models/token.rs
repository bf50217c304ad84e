use vstd::prelude::*;

use crate::error::FtError;

verus! {

/// Seconds taken off a token's lifetime when its validity is checked, so that a
/// token reported valid stays valid while a request is on its way.
pub const SAFETY_MARGIN: u64 = 5;

/// A bearer credential, as the token endpoint issues it.
///
/// `created_at + expires_in` is the instant at which it expires. `refresh_token`
/// and `secret_valid_until` come only with tokens of the authorization-code grant.
#[derive(Debug, Clone, PartialEq, Eq)]
pub struct AccessToken {
    pub access_token: String,
    pub token_type: String,
    pub expires_in: u64,
    pub scope: String,
    pub created_at: u64,
    pub refresh_token: Option<String>,
    pub secret_valid_until: Option<u64>,
}

/// What the API reports about a token when asked to introspect it.
#[derive(Debug, Clone, PartialEq, Eq)]
pub struct TokenInfo {
    pub resource_owner_id: u32,
    pub scopes: Vec<String>,
    pub expires_in_seconds: u64,
    pub application: ApplicationInfo,
    pub created_at: u64,
}

/// The application that a token was issued to.
#[derive(Debug, Clone, PartialEq, Eq)]
pub struct ApplicationInfo {
    pub uid: String,
    pub name: String,
    pub redirect_uri: String,
}

impl AccessToken {
    /// The Unix timestamp at which the token stops being valid.
    pub open spec fn expires_at(&self) -> int {
        self.created_at + self.expires_in
    }

    /// The token counts as expired at `now` once fewer than the safety margin's
    /// seconds are left.
    pub open spec fn expired_at(&self, now: u64) -> bool {
        self.expires_at() <= now + SAFETY_MARGIN
    }

    /// A token is renewable when it has a refresh token and either no deadline
    /// for its secret or one that falls within the safety margin of `now`.
    pub open spec fn renewable_at(&self, now: u64) -> bool {
        &&& self.refresh_token is Some
        &&& match self.secret_valid_until {
            Some(until) => until <= now + SAFETY_MARGIN,
            None => true,
        }
    }

    /// Whether the token is expired at the Unix timestamp `now`.
    pub fn is_expired(&self, now: u64) -> (r: bool)
        ensures
            r == self.expired_at(now),
    {
        (self.created_at as u128) + (self.expires_in as u128) <= (now as u128) + (
        SAFETY_MARGIN as u128)
    }

    /// Whether the token can be renewed at the Unix timestamp `now`.
    pub fn can_renew(&self, now: u64) -> (r: bool)
        ensures
            r == self.renewable_at(now),
    {
        if self.refresh_token.is_some() {
            match self.secret_valid_until {
                Some(until) => (until as u128) <= (now as u128) + (SAFETY_MARGIN as u128),
                None => true,
            }
        } else {
            false
        }
    }

    /// Whether the token is expired by the system clock; fails when the clock
    /// reads a time before the Unix epoch.
    pub fn is_expired_now(&self) -> (r: Result<bool, FtError>)
        ensures
            match r {
                Ok(b) => exists|now: u64| b == self.expired_at(now),
                Err(e) => e is InvalidTimestamp,
            },
    {
        let now = unix_now()?;
        Ok(self.is_expired(now))
    }

    /// Whether the token can be renewed by the system clock; fails when the
    /// clock reads a time before the Unix epoch.
    pub fn can_renew_now(&self) -> (r: Result<bool, FtError>)
        ensures
            match r {
                Ok(b) => exists|now: u64| b == self.renewable_at(now),
                Err(e) => e is InvalidTimestamp,
            },
    {
        let now = unix_now()?;
        Ok(self.can_renew(now))
    }
}

/// A token is expired at `now` exactly when its expiry instant is no later than
/// `now` plus the safety margin: at `now + 5` it is already expired, a second
/// later it is not.
pub proof fn lemma_expiry_boundary(t: AccessToken, now: u64)
    ensures
        t.created_at + t.expires_in > now + 5 ==> !t.expired_at(now),
        t.created_at + t.expires_in <= now + 5 ==> t.expired_at(now),
{
}

/// A token without a refresh token is never renewable, whatever the deadline of
/// its secret.
pub proof fn lemma_no_refresh_token_not_renewable(t: AccessToken, now: u64)
    requires
        t.refresh_token is None,
    ensures
        !t.renewable_at(now),
{
}

/// A token with a refresh token and no deadline for its secret is renewable at
/// every instant.
pub proof fn lemma_refresh_token_without_deadline_renewable(t: AccessToken, now: u64)
    requires
        t.refresh_token is Some,
        t.secret_valid_until is None,
    ensures
        t.renewable_at(now),
{
}

/// Turns a reading of the system clock into the Unix timestamp that the expiry
/// checks take: `Ok` holds the seconds after the epoch, `Err` the seconds before
/// it, which are an error.
pub fn checked_timestamp(reading: Result<u64, u64>) -> (r: Result<u64, FtError>)
    ensures
        match reading {
            Ok(after) => r == Ok::<u64, FtError>(after),
            Err(before) => r == Err::<u64, FtError>(
                FtError::InvalidTimestamp { seconds_before_epoch: before },
            ),
        },
{
    match reading {
        Ok(after) => Ok(after),
        Err(before) => Err(FtError::InvalidTimestamp { seconds_before_epoch: before }),
    }
}

/// The current Unix timestamp by the system clock; a clock set before the epoch
/// is an error.
pub fn unix_now() -> (r: Result<u64, FtError>)
    ensures
        r is Err ==> r->Err_0 is InvalidTimestamp,
{
    checked_timestamp(system_clock())
}

/// Relies on std::time::SystemTime::duration_since: the whole seconds of the
/// system clock after the Unix epoch, or before it when the clock reads earlier.
#[verifier::external_body]
fn system_clock() -> (r: Result<u64, u64>) {
    match std::time::SystemTime::now().duration_since(std::time::UNIX_EPOCH) {
        Ok(after) => Ok(after.as_secs()),
        Err(e) => Err(e.duration().as_secs()),
    }
}

} // verus!
