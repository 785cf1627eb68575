//! The access token and its expiry rule.

use vstd::prelude::*;

verus! {

/// Seconds of validity assumed when the provider does not supply a duration.
pub const DEFAULT_EXPIRY_SECS: u64 = 3600;

/// A bearer access token obtained through one PKCE flow, bound to the
/// wall-clock second of its creation and to an expiry duration.
///
/// Time enters only as an argument: the token never reads a clock itself,
/// so expiry is a pure function of the token's fields and the given instant.
#[derive(Debug)]
pub struct Pkce {
    token: String,
    creation: u64,
    expired_in: u64,
}

impl Pkce {
    /// The opaque bearer secret.
    pub closed spec fn spec_secret(&self) -> Seq<char> {
        self.token@
    }

    /// The wall-clock second at which the token was created.
    pub closed spec fn spec_creation(&self) -> u64 {
        self.creation
    }

    /// The number of seconds the token stays valid after creation.
    pub closed spec fn spec_expired_in(&self) -> u64 {
        self.expired_in
    }

    /// A token is expired at `now` iff the elapsed time since creation
    /// has reached its expiry duration.
    pub open spec fn spec_is_expired(&self, now: u64) -> bool {
        now as int - self.spec_creation() as int >= self.spec_expired_in() as int
    }

    /// Wrap a freshly exchanged bearer secret. A provider that supplied no
    /// duration gets the default of `DEFAULT_EXPIRY_SECS` seconds.
    pub fn new(token: String, creation: u64, expires_in: Option<u64>) -> (r: Self)
        ensures
            r.spec_secret() == token@,
            r.spec_creation() == creation,
            r.spec_expired_in() == (match expires_in {
                Some(d) => d,
                None => DEFAULT_EXPIRY_SECS,
            }),
    {
        let expired_in = match expires_in {
            Some(d) => d,
            None => DEFAULT_EXPIRY_SECS,
        };
        Pkce { token, creation, expired_in }
    }

    /// Expiry test against an injected wall-clock second.
    pub fn is_expired(&self, now: u64) -> (r: bool)
        ensures
            r == self.spec_is_expired(now),
    {
        if now < self.creation {
            false
        } else {
            now - self.creation >= self.expired_in
        }
    }

    /// The bearer secret, for the `Authorization` header.
    pub fn secret(&self) -> (r: &String)
        ensures
            r@ == self.spec_secret(),
    {
        &self.token
    }
}

/// A token whose duration is positive is not expired at the instant of
/// its creation.
pub proof fn lemma_fresh_token_not_expired(p: Pkce)
    requires
        p.spec_expired_in() > 0,
    ensures
        !p.spec_is_expired(p.spec_creation()),
{
}

/// Expiry is monotone in time: once a token is expired it stays expired.
pub proof fn lemma_expiry_is_monotone(p: Pkce, early: u64, late: u64)
    requires
        early <= late,
        p.spec_is_expired(early),
    ensures
        p.spec_is_expired(late),
{
}

/// Expiry flips exactly when the elapsed time crosses the duration: at
/// every instant before `creation + expired_in` the token is valid, and at
/// that instant and every later one it is expired.
pub proof fn lemma_expiry_threshold(p: Pkce, now: u64)
    ensures
        p.spec_is_expired(now) <==> now as int >= p.spec_creation() as int
            + p.spec_expired_in() as int,
{
}

} // verus!
