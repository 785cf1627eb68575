//! The error kinds a flow can end in.

use vstd::prelude::*;

verus! {

/// Every way an authorization attempt can fail. `CsrfMismatch` is a
/// security failure and always fatal to its flow; the others describe
/// configuration, listener, user, or network conditions.
#[derive(Clone, Copy, PartialEq, Eq, Structural, Debug)]
pub enum AuthError {
    /// Malformed provider configuration; a construction-time failure.
    ConfigError,
    /// The loopback port could not be bound.
    BindError,
    /// The redirect's `state` was absent or did not match the flow's.
    CsrfMismatch,
    /// The redirect carried a matching state but no `code`.
    MissingCode,
    /// No redirect arrived within the wait budget.
    AuthTimeout,
    /// The caller or the user aborted the wait.
    Cancelled,
    /// The code-for-token exchange failed.
    TokenExchangeError,
    /// The authorized user-info request failed.
    UserInfoError,
}

impl AuthError {
    pub open spec fn spec_description(self) -> Seq<char> {
        match self {
            AuthError::ConfigError => "Configuration du fournisseur invalide"@,
            AuthError::BindError => "Impossible d'ouvrir le port de redirection"@,
            AuthError::CsrfMismatch => "Le jeton csrf ne correspond pas"@,
            AuthError::MissingCode => "Le code d'autorisation doit etre present"@,
            AuthError::AuthTimeout => "Vous devez vous authentifier"@,
            AuthError::Cancelled => "Authentification annulee"@,
            AuthError::TokenExchangeError => "L'echange du code d'autorisation a echoue"@,
            AuthError::UserInfoError => "La requete des informations utilisateur a echoue"@,
        }
    }

    /// A short human-readable description, rendered verbatim to callers.
    pub fn description(&self) -> (r: &'static str)
        ensures
            r@ == self.spec_description(),
    {
        match self {
            AuthError::ConfigError => "Configuration du fournisseur invalide",
            AuthError::BindError => "Impossible d'ouvrir le port de redirection",
            AuthError::CsrfMismatch => "Le jeton csrf ne correspond pas",
            AuthError::MissingCode => "Le code d'autorisation doit etre present",
            AuthError::AuthTimeout => "Vous devez vous authentifier",
            AuthError::Cancelled => "Authentification annulee",
            AuthError::TokenExchangeError => "L'echange du code d'autorisation a echoue",
            AuthError::UserInfoError => "La requete des informations utilisateur a echoue",
        }
    }
}

} // verus!
