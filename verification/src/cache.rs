//! The process-wide token cache: at most one (provider, token) pair,
//! replaced atomically, reused while it matches and has not expired.
//!
//! The cache itself is single-threaded; the process wraps it in its one
//! lock, so that the check-then-refresh sequence is serialized and at
//! most one authorization flow runs at a time.

use crate::fournisseur::Fournisseur;
use crate::token::Pkce;
use vstd::prelude::*;

verus! {

/// At most one cached (provider, access token) pair.
pub struct TokenCache {
    entry: Option<(Fournisseur, Pkce)>,
}

impl TokenCache {
    pub closed spec fn spec_entry(&self) -> Option<(Fournisseur, Pkce)> {
        self.entry
    }

    /// A request for `f` at instant `now` needs a fresh flow iff no
    /// entry exists, the entry belongs to another provider, or its
    /// token has expired.
    pub open spec fn spec_needs_refresh(&self, f: Fournisseur, now: u64) -> bool {
        match self.spec_entry() {
            None => true,
            Some(e) => e.0 != f || e.1.spec_is_expired(now),
        }
    }

    /// A cache starts empty.
    pub fn new() -> (r: Self)
        ensures
            r.spec_entry() is None,
    {
        TokenCache { entry: None }
    }

    /// Decide whether a request for `f` at `now` must run a flow.
    pub fn needs_refresh(&self, f: &Fournisseur, now: u64) -> (r: bool)
        ensures
            r == self.spec_needs_refresh(*f, now),
    {
        match &self.entry {
            None => true,
            Some((g, t)) => !(g == f) || t.is_expired(now),
        }
    }

    /// The cached token, exactly when it is usable for `f` at `now`.
    pub fn get(&self, f: &Fournisseur, now: u64) -> (r: Option<&Pkce>)
        ensures
            match r {
                Some(t) => !self.spec_needs_refresh(*f, now) && self.spec_entry() == Some(
                    (*f, *t),
                ),
                None => self.spec_needs_refresh(*f, now),
            },
    {
        match &self.entry {
            None => None,
            Some((g, t)) => {
                if g == f && !t.is_expired(now) {
                    Some(t)
                } else {
                    None
                }
            },
        }
    }

    /// Install the outcome of a successful flow: the whole entry is
    /// replaced at once, discarding whatever provider's token was held
    /// before. A failed flow never reaches this point, so the previous
    /// entry survives any failure untouched.
    pub fn install(&mut self, f: Fournisseur, t: Pkce)
        ensures
            final(self).spec_entry() == Some((f, t)),
    {
        self.entry = Some((f, t));
    }
}

/// Two calls in quick succession for the same provider run the flow at
/// most once: once a token for `f` that is unexpired at `now` is
/// installed, a request for `f` at `now` needs no refresh, so the
/// second call returns the cached token without a flow.
pub proof fn lemma_second_call_needs_no_flow(c: TokenCache, f: Fournisseur, t: Pkce, now: u64)
    requires
        c.spec_entry() == Some((f, t)),
        !t.spec_is_expired(now),
    ensures
        !c.spec_needs_refresh(f, now),
{
}

/// Requesting provider `b` while `a`'s token is cached always forces a
/// fresh flow, even if `a`'s token has not expired; installing `b`'s
/// token then discards `a`'s entirely.
pub proof fn lemma_other_provider_forces_refresh(
    c: TokenCache,
    a: Fournisseur,
    b: Fournisseur,
    t: Pkce,
    now: u64,
)
    requires
        c.spec_entry() == Some((a, t)),
        a != b,
    ensures
        c.spec_needs_refresh(b, now),
{
}

} // verus!
