//! The provider descriptor: which OAuth issuer a request is for, and
//! the static configuration attached to it.

use vstd::prelude::*;

verus! {

/// An OAuth issuer the application knows how to talk to. Equality is by
/// identity: the token cache compares descriptors to decide whether a
/// cached token belongs to the requested provider.
#[derive(Clone, Copy, PartialEq, Eq, Structural, Debug)]
pub enum Fournisseur {
    Microsoft,
    Google,
}

impl Fournisseur {
    pub open spec fn spec_name(self) -> Seq<char> {
        match self {
            Fournisseur::Microsoft => "Microsoft"@,
            Fournisseur::Google => "Google"@,
        }
    }

    /// The client id registered with the issuer. A deployment replaces
    /// these placeholders with the application's registration.
    pub open spec fn spec_client_id(self) -> Seq<char> {
        match self {
            Fournisseur::Microsoft => "client-id-microsoft"@,
            Fournisseur::Google => "client-id-google"@,
        }
    }

    pub open spec fn spec_client_secret(self) -> Seq<char> {
        match self {
            Fournisseur::Microsoft => "SECRET-REDACTED"@,
            Fournisseur::Google => "SECRET-REDACTED"@,
        }
    }

    pub open spec fn spec_auth_url(self) -> Seq<char> {
        match self {
            Fournisseur::Microsoft => "https://login.microsoftonline.com/common/oauth2/v2.0/authorize"@,
            Fournisseur::Google => "https://accounts.google.com/o/oauth2/v2/auth"@,
        }
    }

    pub open spec fn spec_token_url(self) -> Seq<char> {
        match self {
            Fournisseur::Microsoft => "https://login.microsoftonline.com/common/oauth2/v2.0/token"@,
            Fournisseur::Google => "https://oauth2.googleapis.com/token"@,
        }
    }

    pub open spec fn spec_userinfos(self) -> Seq<char> {
        match self {
            Fournisseur::Microsoft => "https://graph.microsoft.com/oidc/userinfo"@,
            Fournisseur::Google => "https://openidconnect.googleapis.com/v1/userinfo"@,
        }
    }

    /// The issuer's display name.
    pub fn name(&self) -> (r: &'static str)
        ensures
            r@ == self.spec_name(),
    {
        match self {
            Fournisseur::Microsoft => "Microsoft",
            Fournisseur::Google => "Google",
        }
    }

    /// Client id and client secret, deterministically from the identity.
    pub fn secrets(&self) -> (r: (&'static str, &'static str))
        ensures
            r.0@ == self.spec_client_id(),
            r.1@ == self.spec_client_secret(),
    {
        match self {
            Fournisseur::Microsoft => ("client-id-microsoft", "SECRET-REDACTED"),
            Fournisseur::Google => ("client-id-google", "SECRET-REDACTED"),
        }
    }

    /// Authorization endpoint and token endpoint.
    pub fn endpoints(&self) -> (r: (&'static str, &'static str))
        ensures
            r.0@ == self.spec_auth_url(),
            r.1@ == self.spec_token_url(),
    {
        match self {
            Fournisseur::Microsoft => (
                "https://login.microsoftonline.com/common/oauth2/v2.0/authorize",
                "https://login.microsoftonline.com/common/oauth2/v2.0/token",
            ),
            Fournisseur::Google => (
                "https://accounts.google.com/o/oauth2/v2/auth",
                "https://oauth2.googleapis.com/token",
            ),
        }
    }

    /// The user-info endpoint the bearer token is presented to.
    pub fn userinfos(&self) -> (r: &'static str)
        ensures
            r@ == self.spec_userinfos(),
    {
        match self {
            Fournisseur::Microsoft => "https://graph.microsoft.com/oidc/userinfo",
            Fournisseur::Google => "https://openidconnect.googleapis.com/v1/userinfo",
        }
    }
}

} // verus!
