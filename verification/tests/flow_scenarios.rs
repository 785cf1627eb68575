//! End-to-end scenarios: the flow state machine driven through consent,
//! redirect capture and exchange, and the token cache's reuse policy.

use pkce_flow::flow::{Flow, FlowStage};
use pkce_flow::listener::{Listener, ListenerSignal, RedirectOutcome};
use pkce_flow::{AuthError, Fournisseur, Pkce, TokenCache};

fn b(s: &str) -> Vec<u8> {
    s.as_bytes().to_vec()
}

/// A redirect request line echoing the flow's own CSRF state.
fn redirect_line(flow: &Flow, code: &str) -> Vec<u8> {
    let mut line = b("GET /?code=");
    line.extend_from_slice(code.as_bytes());
    line.extend_from_slice(b"&state=");
    line.extend_from_slice(flow.csrf_state());
    line.extend_from_slice(b" HTTP/1.1\r\n");
    line
}

#[test]
fn secrets_differ_across_invocations() {
    // Fresh CSRF state and PKCE verifier every flow; collisions would
    // break the CSRF binding and the PKCE guarantee.
    let mut states: Vec<Vec<u8>> = Vec::new();
    let mut verifiers: Vec<Vec<u8>> = Vec::new();
    for _ in 0..32 {
        let flow = Flow::start(&Fournisseur::Microsoft);
        assert_eq!(flow.csrf_state().len(), 22);
        assert_eq!(flow.code_verifier().len(), 43);
        assert!(!states.contains(flow.csrf_state()));
        assert!(!verifiers.contains(flow.code_verifier()));
        states.push(flow.csrf_state().clone());
        verifiers.push(flow.code_verifier().clone());
    }
}

#[test]
fn authorization_url_carries_the_flow_parameters() {
    let flow = Flow::start(&Fournisseur::Microsoft);
    let url = String::from_utf8(flow.authorize_url().clone()).unwrap();
    assert!(url.starts_with(
        "https://login.microsoftonline.com/common/oauth2/v2.0/authorize?response_type=code&client_id="
    ));
    let state = String::from_utf8(flow.csrf_state().clone()).unwrap();
    assert!(url.contains("&code_challenge="));
    assert!(url.contains("&code_challenge_method=S256"));
    assert!(url.contains("&redirect_uri=http%3A%2F%2Flocalhost%3A86"));
    assert!(url.ends_with("&scope=openid+email+profile"));
    // The state rides along unmodified: base64url bytes need no escaping.
    assert!(url.contains(&format!("&state={state}")));
    // The verifier itself never appears in the URL.
    let verifier = String::from_utf8(flow.code_verifier().clone()).unwrap();
    assert!(!url.contains(&verifier));
}

#[test]
fn happy_path_completes_with_bearer_token() {
    // Provider P; consent completes within the grace period with a
    // matching state and the code abc123.
    let mut flow = Flow::start(&Fournisseur::Microsoft);
    assert!(matches!(flow.stage(), FlowStage::Building));
    flow.on_bind(true);
    assert!(matches!(flow.stage(), FlowStage::AwaitingConsent));
    flow.on_presenter(true);
    assert!(matches!(flow.stage(), FlowStage::AwaitingRedirect));

    let mut listener = Listener::start(flow.csrf_state().clone(), 0, 150_000);
    let line = redirect_line(&flow, "abc123");
    let signal = listener.poll(500, Some(&line), false).expect("redirect should be delivered");
    match &signal {
        ListenerSignal::Redirect(RedirectOutcome::Code(c)) => assert_eq!(c, &b("abc123")),
        other => panic!("unexpected signal: {other:?}"),
    }
    // The listener reports success exactly once.
    assert!(listener.poll(501, Some(&line), false).is_none());

    flow.on_listener(signal);
    assert!(!flow.presenter_open());
    match flow.stage() {
        FlowStage::Exchanging { code } => assert_eq!(code, &b("abc123")),
        other => panic!("unexpected stage: {other:?}"),
    }
    flow.on_exchange(Some(("bearer-secret".to_string(), Some(3600))), 1_000);
    match flow.stage() {
        FlowStage::Completed { token } => assert!(!token.secret().is_empty()),
        other => panic!("unexpected stage: {other:?}"),
    }
    let token = flow.take_token().expect("completed flow yields its token");
    assert_eq!(token.secret().as_str(), "bearer-secret");
    assert!(!token.is_expired(1_000));
    assert!(token.is_expired(4_600));
}

#[test]
fn wrong_state_fails_with_csrf_mismatch() {
    // Consent redirect arrives with state=wrong: the flow fails with
    // CsrfMismatch, the cache stays empty, the consent window is closed.
    let cache = TokenCache::new();
    let mut flow = Flow::start(&Fournisseur::Microsoft);
    flow.on_bind(true);
    flow.on_presenter(true);

    let mut listener = Listener::start(flow.csrf_state().clone(), 0, 150_000);
    let line = b("GET /?code=abc123&state=wrong HTTP/1.1\r\n");
    let signal = listener.poll(500, Some(&line), false).expect("redirect should be decided");
    assert!(matches!(
        &signal,
        ListenerSignal::Redirect(RedirectOutcome::CsrfMismatch)
    ));
    flow.on_listener(signal);
    assert_eq!(flow.error(), Some(AuthError::CsrfMismatch));
    // The consent window is closed before the error is reported.
    assert!(!flow.presenter_open());
    assert!(flow.take_token().is_none());
    // Nothing was installed: the next request still needs a flow.
    assert!(cache.needs_refresh(&Fournisseur::Microsoft, 501));
}

#[test]
fn no_redirect_times_out() {
    // No redirect within the budget: AuthTimeout, and a fresh listener
    // can start over afterwards.
    let mut flow = Flow::start(&Fournisseur::Microsoft);
    flow.on_bind(true);
    flow.on_presenter(true);
    let mut listener = Listener::start(flow.csrf_state().clone(), 0, 150_000);
    assert!(listener.poll(100, None, false).is_none());
    let signal = listener.poll(150_000, None, false).expect("budget exhausted");
    assert!(matches!(&signal, ListenerSignal::AuthTimeout));
    flow.on_listener(signal);
    assert_eq!(flow.error(), Some(AuthError::AuthTimeout));

    let mut fresh = Listener::start(b("new-state"), 200_000, 150_000);
    let line = b("GET /?code=next&state=new-state HTTP/1.1\r\n");
    assert!(matches!(
        fresh.poll(200_100, Some(&line), false),
        Some(ListenerSignal::Redirect(RedirectOutcome::Code(_)))
    ));
}

#[test]
fn bind_failure_is_fatal() {
    let mut flow = Flow::start(&Fournisseur::Microsoft);
    flow.on_bind(false);
    assert_eq!(flow.error(), Some(AuthError::BindError));
}

#[test]
fn failed_exchange_is_surfaced() {
    let mut flow = Flow::start(&Fournisseur::Microsoft);
    flow.on_bind(true);
    flow.on_presenter(true);
    let line = redirect_line(&flow, "abc123");
    let mut listener = Listener::start(flow.csrf_state().clone(), 0, 150_000);
    let signal = listener.poll(10, Some(&line), false).unwrap();
    flow.on_listener(signal);
    flow.on_exchange(None, 20);
    assert_eq!(flow.error(), Some(AuthError::TokenExchangeError));
    assert!(flow.take_token().is_none());
}

#[test]
fn exchange_without_duration_gets_the_default() {
    let mut flow = Flow::start(&Fournisseur::Google);
    flow.on_bind(true);
    flow.on_presenter(true);
    let line = redirect_line(&flow, "abc123");
    let mut listener = Listener::start(flow.csrf_state().clone(), 0, 150_000);
    let signal = listener.poll(10, Some(&line), false).unwrap();
    flow.on_listener(signal);
    flow.on_exchange(Some(("bearer".to_string(), None)), 100);
    let token = flow.take_token().unwrap();
    assert!(!token.is_expired(3_699));
    assert!(token.is_expired(3_700));
}

/// The cache driver: the facade's decision sequence, with the flow
/// mocked by a counter.
fn get_or_refresh_counting(
    cache: &mut TokenCache,
    f: Fournisseur,
    now: u64,
    flow_runs: &mut u32,
) -> String {
    if let Some(t) = cache.get(&f, now) {
        return t.secret().clone();
    }
    *flow_runs += 1;
    let fresh = Pkce::new(format!("token-{flow_runs}"), now, Some(3600));
    let secret = fresh.secret().clone();
    cache.install(f, fresh);
    secret
}

#[test]
fn second_call_reuses_cached_token() {
    // Two calls in quick succession for the same provider invoke the
    // flow at most once.
    let mut cache = TokenCache::new();
    let mut runs: u32 = 0;
    let a = get_or_refresh_counting(&mut cache, Fournisseur::Microsoft, 100, &mut runs);
    let b = get_or_refresh_counting(&mut cache, Fournisseur::Microsoft, 101, &mut runs);
    assert_eq!(runs, 1);
    assert_eq!(a, b);
}

#[test]
fn other_provider_discards_cached_token() {
    // Provider A then provider B: B runs a fresh flow even though A's
    // token was still valid, and A's token is discarded.
    let mut cache = TokenCache::new();
    let mut runs: u32 = 0;
    let _ = get_or_refresh_counting(&mut cache, Fournisseur::Microsoft, 100, &mut runs);
    let _ = get_or_refresh_counting(&mut cache, Fournisseur::Google, 101, &mut runs);
    assert_eq!(runs, 2);
    // A's entry is gone: requesting A again runs a third flow.
    let _ = get_or_refresh_counting(&mut cache, Fournisseur::Microsoft, 102, &mut runs);
    assert_eq!(runs, 3);
}

#[test]
fn expired_cached_token_triggers_fresh_flow() {
    // A cached token with expiry 3600 s created at now-4000 s is treated
    // as expired.
    let mut cache = TokenCache::new();
    let now: u64 = 10_000;
    cache.install(
        Fournisseur::Microsoft,
        Pkce::new("stale".to_string(), now - 4_000, Some(3_600)),
    );
    assert!(cache.needs_refresh(&Fournisseur::Microsoft, now));
    let mut runs: u32 = 0;
    let fresh = get_or_refresh_counting(&mut cache, Fournisseur::Microsoft, now, &mut runs);
    assert_eq!(runs, 1);
    assert_ne!(fresh, "stale");
}

#[test]
fn valid_cached_token_is_returned_without_flow() {
    let mut cache = TokenCache::new();
    let now: u64 = 10_000;
    cache.install(
        Fournisseur::Microsoft,
        Pkce::new("live".to_string(), now - 1_000, Some(3_600)),
    );
    let mut runs: u32 = 0;
    let got = get_or_refresh_counting(&mut cache, Fournisseur::Microsoft, now, &mut runs);
    assert_eq!(runs, 0);
    assert_eq!(got, "live");
}

#[test]
fn error_descriptions_are_distinct() {
    let all = [
        AuthError::ConfigError,
        AuthError::BindError,
        AuthError::CsrfMismatch,
        AuthError::MissingCode,
        AuthError::AuthTimeout,
        AuthError::Cancelled,
        AuthError::TokenExchangeError,
        AuthError::UserInfoError,
    ];
    for (i, a) in all.iter().enumerate() {
        assert!(!a.description().is_empty());
        for b in &all[i + 1..] {
            assert_ne!(a.description(), b.description());
        }
    }
}
