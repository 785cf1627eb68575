//! Verified core of a desktop OAuth 2.0 Authorization Code flow with PKCE.
//!
//! The library holds the logic of the flow: the access-token expiry rule,
//! the parsing and CSRF validation of the loopback redirect, the
//! authorization-URL construction, the listener and flow state machines,
//! and the token-cache policy. The surrounding process (network listener,
//! browser window, HTTP client) drives these state machines from outside.

pub mod cache;
pub mod error;
pub mod flow;
pub mod fournisseur;
pub mod listener;
pub mod query;
pub mod token;
pub mod urlenc;
pub mod userinfo;

pub use cache::TokenCache;
pub use cache::lemma_second_call_needs_no_flow;
pub use cache::lemma_other_provider_forces_refresh;
pub use error::AuthError;
pub use flow::Flow;
pub use flow::FlowStage;
pub use flow::build_authorize_url;
pub use fournisseur::Fournisseur;
pub use listener::Listener;
pub use listener::ListenerSignal;
pub use listener::RedirectOutcome;
pub use listener::validate_redirect;
pub use token::Pkce;
pub use token::DEFAULT_EXPIRY_SECS;
