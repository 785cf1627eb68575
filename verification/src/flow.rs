//! One end-to-end authorization as a state machine.
//!
//! The flow owns the per-invocation secrets (PKCE verifier, CSRF state)
//! and the authorization URL, and decides every transition:
//! `Building -> AwaitingConsent -> AwaitingRedirect -> Exchanging ->
//! Completed | Failed`. The surrounding process performs the outside
//! work — binding the port, creating and showing the consent window,
//! the token-exchange request — and reports each result back as an
//! event. A new invocation builds a new flow: verifier and state are
//! never reused.

use crate::error::AuthError;
use crate::fournisseur::Fournisseur;
use crate::listener::ListenerSignal;
use crate::listener::RedirectOutcome;
use crate::query::append_bytes;
use crate::token::Pkce;
use crate::urlenc::spec_enc;
use crate::urlenc::urlencode;
use vstd::prelude::*;
use vstd::string::StrSliceExecFns;
use vstd::string::StringSliceAdditionalSpecFns;
use vstd::utf8::encode_utf8;

verus! {

/// The RFC 7636 S256 code challenge of a verifier: base64url, without
/// padding, of the SHA-256 digest of the verifier's bytes. The library
/// never recomputes it; it holds only that the challenge is a function
/// of the verifier alone.
pub uninterp spec fn challenge_of(verifier: Seq<u8>) -> Seq<u8>;

/// Relies on oauth2::CsrfToken::new_random: a fresh random 128-bit
/// value, base64url-encoded without padding into 22 ASCII bytes.
#[verifier::external_body]
fn random_csrf_state() -> (r: Vec<u8>)
    ensures
        r@.len() == 22,
{
    oauth2::CsrfToken::new_random().secret().clone().into_bytes()
}

/// Relies on oauth2::PkceCodeChallenge::new_random_sha256: a fresh
/// 43-byte base64url code verifier together with its S256 challenge,
/// which is a function of the verifier alone.
#[verifier::external_body]
fn random_pkce_pair() -> (r: (Vec<u8>, Vec<u8>))
    ensures
        r.0@.len() == 43,
        r.1@ == challenge_of(r.0@),
{
    let (challenge, verifier) = oauth2::PkceCodeChallenge::new_random_sha256();
    (verifier.secret().clone().into_bytes(), challenge.as_str().to_owned().into_bytes())
}

/// Where the provider sends the browser back: the loopback listener's
/// fixed port.
pub open spec fn spec_redirect_uri() -> Seq<char> {
    "http://localhost:86"@
}

pub fn redirect_uri() -> (r: &'static str)
    ensures
        r@ == spec_redirect_uri(),
{
    "http://localhost:86"
}

/// The scopes requested of every provider, space-joined.
pub open spec fn spec_scopes() -> Seq<char> {
    "openid email profile"@
}

/// The authorization URL, byte for byte: the provider's authorization
/// endpoint followed by the query parameters `response_type`,
/// `client_id`, `state`, `code_challenge`, `code_challenge_method`,
/// `redirect_uri` and `scope`, each value form-urlencoded.
pub open spec fn spec_authorize_url(f: Fournisseur, state: Seq<u8>, challenge: Seq<u8>) -> Seq<
    u8,
> {
    encode_utf8(f.spec_auth_url()) + encode_utf8("?response_type=code&client_id="@) + spec_enc(
        encode_utf8(f.spec_client_id()),
    ) + encode_utf8("&state="@) + spec_enc(state) + encode_utf8("&code_challenge="@) + spec_enc(
        challenge,
    ) + encode_utf8("&code_challenge_method=S256&redirect_uri="@) + spec_enc(
        encode_utf8(spec_redirect_uri()),
    ) + encode_utf8("&scope="@) + spec_enc(encode_utf8(spec_scopes()))
}

/// Assemble the authorization URL for `f` with the given state and
/// code challenge.
pub fn build_authorize_url(f: &Fournisseur, state: &Vec<u8>, challenge: &Vec<u8>) -> (r: Vec<u8>)
    ensures
        r@ == spec_authorize_url(*f, state@, challenge@),
{
    let (auth, _token_endpoint) = f.endpoints();
    let (id, _secret) = f.secrets();
    let mut out = auth.as_bytes_vec();
    let p1 = "?response_type=code&client_id=".as_bytes_vec();
    append_bytes(&mut out, &p1);
    let idb = id.as_bytes_vec();
    let ide = urlencode(&idb);
    append_bytes(&mut out, &ide);
    let p2 = "&state=".as_bytes_vec();
    append_bytes(&mut out, &p2);
    let ste = urlencode(state);
    append_bytes(&mut out, &ste);
    let p3 = "&code_challenge=".as_bytes_vec();
    append_bytes(&mut out, &p3);
    let che = urlencode(challenge);
    append_bytes(&mut out, &che);
    let p4 = "&code_challenge_method=S256&redirect_uri=".as_bytes_vec();
    append_bytes(&mut out, &p4);
    let rub = redirect_uri().as_bytes_vec();
    let rue = urlencode(&rub);
    append_bytes(&mut out, &rue);
    let p5 = "&scope=".as_bytes_vec();
    append_bytes(&mut out, &p5);
    let scb = "openid email profile".as_bytes_vec();
    let sce = urlencode(&scb);
    append_bytes(&mut out, &sce);
    proof {
        assert(out@ =~= spec_authorize_url(*f, state@, challenge@));
    }
    out
}

/// Where one flow stands.
#[derive(Debug)]
pub enum FlowStage {
    /// Secrets and URL are built; the listener is not bound yet.
    Building,
    /// The listener is bound; the consent presenter is being created.
    AwaitingConsent,
    /// Waiting for the listener to report the one redirect.
    AwaitingRedirect,
    /// A code was accepted; the exchange request is in flight.
    Exchanging { code: Vec<u8> },
    /// The exchange succeeded.
    Completed { token: Pkce },
    /// The flow failed; terminal.
    Failed { error: AuthError },
}

/// One authorization flow. The secrets live only inside this value and
/// are dropped with it when the flow ends.
pub struct Flow {
    fournisseur: Fournisseur,
    code_verifier: Vec<u8>,
    csrf: Vec<u8>,
    url: Vec<u8>,
    stage: FlowStage,
    presenter_open: bool,
    presenter_visible: bool,
}

impl Flow {
    pub closed spec fn spec_fournisseur(&self) -> Fournisseur {
        self.fournisseur
    }

    pub closed spec fn spec_verifier(&self) -> Seq<u8> {
        self.code_verifier@
    }

    pub closed spec fn spec_csrf(&self) -> Seq<u8> {
        self.csrf@
    }

    pub closed spec fn spec_url(&self) -> Seq<u8> {
        self.url@
    }

    pub closed spec fn spec_stage(&self) -> FlowStage {
        self.stage
    }

    pub closed spec fn spec_presenter_open(&self) -> bool {
        self.presenter_open
    }

    pub closed spec fn spec_presenter_visible(&self) -> bool {
        self.presenter_visible
    }

    pub open spec fn spec_terminal(&self) -> bool {
        self.spec_stage() is Completed || self.spec_stage() is Failed
    }

    /// The identity of a flow: provider, secrets and URL never change
    /// after construction.
    pub open spec fn spec_same_identity(&self, other: &Flow) -> bool {
        &&& self.spec_fournisseur() == other.spec_fournisseur()
        &&& self.spec_verifier() == other.spec_verifier()
        &&& self.spec_csrf() == other.spec_csrf()
        &&& self.spec_url() == other.spec_url()
    }

    /// A flow never ends with its consent window open.
    pub open spec fn wf(&self) -> bool {
        self.spec_terminal() ==> !self.spec_presenter_open()
    }

    /// Begin one authorization for `f`: generate a fresh PKCE pair and
    /// CSRF state and construct the authorization URL. Every invocation
    /// draws new secrets; nothing is carried over from an earlier flow.
    pub fn start(f: &Fournisseur) -> (r: Flow)
        ensures
            r.spec_fournisseur() == *f,
            r.spec_stage() is Building,
            !r.spec_presenter_open(),
            !r.spec_presenter_visible(),
            r.spec_csrf().len() == 22,
            r.spec_verifier().len() == 43,
            r.spec_url() == spec_authorize_url(*f, r.spec_csrf(), challenge_of(r.spec_verifier())),
            r.wf(),
    {
        let (code_verifier, challenge) = random_pkce_pair();
        let csrf = random_csrf_state();
        let url = build_authorize_url(f, &csrf, &challenge);
        Flow {
            fournisseur: *f,
            code_verifier,
            csrf,
            url,
            stage: FlowStage::Building,
            presenter_open: false,
            presenter_visible: false,
        }
    }

    /// The listener bind result arrives. A failed bind is fatal for this
    /// attempt and is not retried: a stuck port means an earlier flow
    /// did not terminate cleanly.
    pub fn on_bind(&mut self, ok: bool)
        requires
            old(self).spec_stage() is Building,
            !old(self).spec_presenter_open(),
        ensures
            final(self).spec_same_identity(old(self)),
            !final(self).spec_presenter_open(),
            !final(self).spec_presenter_visible(),
            ok ==> final(self).spec_stage() is AwaitingConsent,
            !ok ==> final(self).spec_stage() == (FlowStage::Failed { error: AuthError::BindError }),
            final(self).wf(),
    {
        self.presenter_visible = false;
        if ok {
            self.stage = FlowStage::AwaitingConsent;
        } else {
            self.stage = FlowStage::Failed { error: AuthError::BindError };
        }
    }

    /// The consent presenter was created (still hidden) or could not be.
    pub fn on_presenter(&mut self, ok: bool)
        requires
            old(self).spec_stage() is AwaitingConsent,
            !old(self).spec_presenter_open(),
        ensures
            final(self).spec_same_identity(old(self)),
            ok ==> final(self).spec_stage() is AwaitingRedirect
                && final(self).spec_presenter_open()
                && !final(self).spec_presenter_visible(),
            !ok ==> final(self).spec_stage() == (FlowStage::Failed {
                error: AuthError::ConfigError,
            }) && !final(self).spec_presenter_open(),
            final(self).wf(),
    {
        if ok {
            self.presenter_open = true;
            self.presenter_visible = false;
            self.stage = FlowStage::AwaitingRedirect;
        } else {
            self.stage = FlowStage::Failed { error: AuthError::ConfigError };
        }
    }

    /// The short grace period elapsed without a redirect: the presenter
    /// becomes visible. The flow keeps waiting; users who completed
    /// consent within the grace period never see the window.
    pub fn on_grace_elapsed(&mut self)
        requires
            old(self).spec_stage() is AwaitingRedirect,
            old(self).spec_presenter_open(),
        ensures
            final(self).spec_same_identity(old(self)),
            final(self).spec_stage() == old(self).spec_stage(),
            final(self).spec_presenter_open(),
            final(self).spec_presenter_visible(),
            final(self).wf(),
    {
        self.presenter_visible = true;
    }

    /// The listener reported its one terminal signal. Whatever the
    /// outcome, the presenter is closed before the flow moves on: an
    /// accepted code starts the exchange; a CSRF mismatch, a missing
    /// code, the timeout and cancellation are fatal and never reach the
    /// exchange.
    pub fn on_listener(&mut self, signal: ListenerSignal)
        requires
            old(self).spec_stage() is AwaitingRedirect,
        ensures
            final(self).spec_same_identity(old(self)),
            !final(self).spec_presenter_open(),
            !final(self).spec_presenter_visible(),
            match signal {
                ListenerSignal::Redirect(o) => match o {
                    RedirectOutcome::Code(c) => final(self).spec_stage() matches
                        FlowStage::Exchanging { code } && code@ == c@,
                    RedirectOutcome::CsrfMismatch => final(self).spec_stage() == (
                    FlowStage::Failed { error: AuthError::CsrfMismatch }),
                    RedirectOutcome::MissingCode => final(self).spec_stage() == (FlowStage::Failed {
                        error: AuthError::MissingCode,
                    }),
                },
                ListenerSignal::AuthTimeout => final(self).spec_stage() == (FlowStage::Failed {
                    error: AuthError::AuthTimeout,
                }),
                ListenerSignal::Cancelled => final(self).spec_stage() == (FlowStage::Failed {
                    error: AuthError::Cancelled,
                }),
            },
            final(self).wf(),
    {
        self.presenter_open = false;
        self.presenter_visible = false;
        match signal {
            ListenerSignal::Redirect(o) => match o {
                RedirectOutcome::Code(c) => {
                    self.stage = FlowStage::Exchanging { code: c };
                },
                RedirectOutcome::CsrfMismatch => {
                    self.stage = FlowStage::Failed { error: AuthError::CsrfMismatch };
                },
                RedirectOutcome::MissingCode => {
                    self.stage = FlowStage::Failed { error: AuthError::MissingCode };
                },
            },
            ListenerSignal::AuthTimeout => {
                self.stage = FlowStage::Failed { error: AuthError::AuthTimeout };
            },
            ListenerSignal::Cancelled => {
                self.stage = FlowStage::Failed { error: AuthError::Cancelled };
            },
        }
    }

    /// The token-exchange result arrives: the bearer secret and the
    /// provider-supplied expiry duration on success, or nothing on any
    /// transport or protocol failure, which is always surfaced as
    /// `TokenExchangeError`.
    pub fn on_exchange(&mut self, outcome: Option<(String, Option<u64>)>, now: u64)
        requires
            old(self).spec_stage() is Exchanging,
            !old(self).spec_presenter_open(),
        ensures
            final(self).spec_same_identity(old(self)),
            !final(self).spec_presenter_open(),
            final(self).spec_presenter_visible() == old(self).spec_presenter_visible(),
            match outcome {
                Some(got) => final(self).spec_stage() matches FlowStage::Completed { token }
                    && token.spec_secret() == got.0@ && token.spec_creation() == now
                    && token.spec_expired_in() == (match got.1 {
                    Some(d) => d,
                    None => crate::token::DEFAULT_EXPIRY_SECS,
                }),
                None => final(self).spec_stage() == (FlowStage::Failed {
                    error: AuthError::TokenExchangeError,
                }),
            },
            final(self).wf(),
    {
        match outcome {
            Some((secret, expires_in)) => {
                let token = Pkce::new(secret, now, expires_in);
                self.stage = FlowStage::Completed { token };
            },
            None => {
                self.stage = FlowStage::Failed { error: AuthError::TokenExchangeError };
            },
        }
    }

    /// The stage, for the process driving the flow.
    pub fn stage(&self) -> (r: &FlowStage)
        ensures
            *r == self.spec_stage(),
    {
        &self.stage
    }

    /// The authorization URL handed to the consent presenter.
    pub fn authorize_url(&self) -> (r: &Vec<u8>)
        ensures
            r@ == self.spec_url(),
    {
        &self.url
    }

    /// The CSRF state the redirect must echo; the listener is started
    /// with a copy of it.
    pub fn csrf_state(&self) -> (r: &Vec<u8>)
        ensures
            r@ == self.spec_csrf(),
    {
        &self.csrf
    }

    /// The PKCE verifier, read once for the token exchange.
    pub fn code_verifier(&self) -> (r: &Vec<u8>)
        ensures
            r@ == self.spec_verifier(),
    {
        &self.code_verifier
    }

    /// Whether the consent presenter is currently open.
    pub fn presenter_open(&self) -> (r: bool)
        ensures
            r == self.spec_presenter_open(),
    {
        self.presenter_open
    }

    /// Whether the consent presenter has been made visible.
    pub fn presenter_visible(&self) -> (r: bool)
        ensures
            r == self.spec_presenter_visible(),
    {
        self.presenter_visible
    }

    /// The provider this flow is for.
    pub fn fournisseur(&self) -> (r: &Fournisseur)
        ensures
            *r == self.spec_fournisseur(),
    {
        &self.fournisseur
    }

    /// Consume a completed flow, yielding its token.
    pub fn take_token(self) -> (r: Option<Pkce>)
        ensures
            match self.spec_stage() {
                FlowStage::Completed { token } => r == Some(token),
                _ => r is None,
            },
    {
        match self.stage {
            FlowStage::Completed { token } => Some(token),
            _ => None,
        }
    }

    /// The error of a failed flow.
    pub fn error(&self) -> (r: Option<AuthError>)
        ensures
            match self.spec_stage() {
                FlowStage::Failed { error } => r == Some(error),
                _ => r is None,
            },
    {
        match &self.stage {
            FlowStage::Failed { error } => Some(*error),
            _ => None,
        }
    }
}

} // verus!
