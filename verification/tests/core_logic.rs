//! Unit tests of the verified core: expiry, parsing, validation,
//! encoding, and the formatted outputs.

use pkce_flow::listener::{ok_response, u64_to_dec, Listener, ListenerSignal, RedirectOutcome};
use pkce_flow::query::{pct_decode, query_of_line, second_token};
use pkce_flow::urlenc::urlencode;
use pkce_flow::userinfo::format_userinfos;
use pkce_flow::validate_redirect;
use pkce_flow::{Fournisseur, Pkce, DEFAULT_EXPIRY_SECS};

fn b(s: &str) -> Vec<u8> {
    s.as_bytes().to_vec()
}

#[test]
fn token_not_expired_at_creation() {
    let t = Pkce::new("secret".to_string(), 1000, Some(3600));
    assert!(!t.is_expired(1000));
    assert!(!t.is_expired(1001));
    assert!(!t.is_expired(4599));
}

#[test]
fn token_expired_exactly_at_threshold() {
    let t = Pkce::new("secret".to_string(), 1000, Some(3600));
    assert!(!t.is_expired(4599));
    assert!(t.is_expired(4600));
    assert!(t.is_expired(4601));
    assert!(t.is_expired(u64::MAX));
}

#[test]
fn token_default_expiry_is_3600() {
    assert_eq!(DEFAULT_EXPIRY_SECS, 3600);
    let t = Pkce::new("secret".to_string(), 0, None);
    assert!(!t.is_expired(3599));
    assert!(t.is_expired(3600));
}

#[test]
fn token_secret_is_kept() {
    let t = Pkce::new("bearer-xyz".to_string(), 0, None);
    assert_eq!(t.secret(), "bearer-xyz");
}

#[test]
fn second_token_extracts_request_target() {
    assert_eq!(
        second_token(&b("GET /?code=1 HTTP/1.1\r\n")),
        Some(b("/?code=1"))
    );
    assert_eq!(second_token(&b("GET")), None);
    assert_eq!(second_token(&b("")), None);
    assert_eq!(second_token(&b("   GET    /x   HTTP/1.1")), Some(b("/x")));
}

#[test]
fn query_of_line_extracts_query() {
    assert_eq!(query_of_line(&b("GET /?a=1&b=2 HTTP/1.1\r\n")), b("a=1&b=2"));
    assert_eq!(query_of_line(&b("GET /path HTTP/1.1\r\n")), b(""));
    assert_eq!(query_of_line(&b("GET /?a=1#frag HTTP/1.1\r\n")), b("a=1"));
    assert_eq!(query_of_line(&b("nonsense")), b(""));
}

#[test]
fn pct_decode_handles_escapes() {
    assert_eq!(pct_decode(&b("abc")), b("abc"));
    assert_eq!(pct_decode(&b("4%2Fabc")), b("4/abc"));
    assert_eq!(pct_decode(&b("a+b")), b("a b"));
    assert_eq!(pct_decode(&b("%41%6a")), b("Aj"));
    // A malformed escape is kept literally.
    assert_eq!(pct_decode(&b("%zz")), b("%zz"));
    assert_eq!(pct_decode(&b("%4")), b("%4"));
}

#[test]
fn urlencode_matches_form_urlencoding() {
    assert_eq!(urlencode(&b("abcXYZ019*-._")), b("abcXYZ019*-._"));
    assert_eq!(urlencode(&b("a b")), b("a+b"));
    assert_eq!(urlencode(&b("http://x/")), b("http%3A%2F%2Fx%2F"));
    assert_eq!(urlencode(&b("a=b&c")), b("a%3Db%26c"));
}

#[test]
fn decode_undoes_encode() {
    let cases: Vec<Vec<u8>> = vec![
        b(""),
        b("plain"),
        b("with space & specials = %"),
        (0u8..=255u8).collect(),
    ];
    for case in cases {
        assert_eq!(pct_decode(&urlencode(&case)), case);
    }
}

#[test]
fn redirect_accepted_with_matching_state() {
    let line = b("GET /?code=abc123&state=xyz HTTP/1.1\r\n");
    match validate_redirect(&line, &b("xyz")) {
        RedirectOutcome::Code(c) => assert_eq!(c, b("abc123")),
        _ => panic!("expected the code to be accepted"),
    }
}

#[test]
fn redirect_with_wrong_state_is_csrf_mismatch() {
    let line = b("GET /?code=abc123&state=wrong HTTP/1.1\r\n");
    assert!(matches!(
        validate_redirect(&line, &b("xyz")),
        RedirectOutcome::CsrfMismatch
    ));
}

#[test]
fn redirect_without_state_is_csrf_mismatch() {
    let line = b("GET /?code=abc123 HTTP/1.1\r\n");
    assert!(matches!(
        validate_redirect(&line, &b("xyz")),
        RedirectOutcome::CsrfMismatch
    ));
}

#[test]
fn state_is_checked_before_code() {
    // Even with a malformed or missing code the mismatch wins.
    for line in [
        b("GET /?state=wrong HTTP/1.1\r\n"),
        b("GET /?code=&state=wrong HTTP/1.1\r\n"),
        b("GET /?code=%zz%%&state=wrong HTTP/1.1\r\n"),
        b("GET / HTTP/1.1\r\n"),
        b("garbage"),
    ] {
        assert!(matches!(
            validate_redirect(&line, &b("xyz")),
            RedirectOutcome::CsrfMismatch
        ));
    }
}

#[test]
fn missing_code_with_matching_state() {
    let line = b("GET /?state=xyz HTTP/1.1\r\n");
    assert!(matches!(
        validate_redirect(&line, &b("xyz")),
        RedirectOutcome::MissingCode
    ));
}

#[test]
fn redirect_state_is_percent_decoded() {
    let line = b("GET /?code=ok&state=a%2Bb HTTP/1.1\r\n");
    match validate_redirect(&line, &b("a+b")) {
        RedirectOutcome::Code(c) => assert_eq!(c, b("ok")),
        _ => panic!("decoded state should match"),
    }
}

#[test]
fn first_pair_wins_on_duplicate_keys() {
    let line = b("GET /?state=xyz&state=other&code=first&code=second HTTP/1.1\r\n");
    match validate_redirect(&line, &b("xyz")) {
        RedirectOutcome::Code(c) => assert_eq!(c, b("first")),
        _ => panic!("first state pair should be the one compared"),
    }
}

#[test]
fn listener_times_out_and_stops() {
    let mut l = Listener::start(b("xyz"), 0, 150);
    assert!(l.poll(0, None, false).is_none());
    assert!(l.poll(149, None, false).is_none());
    assert!(matches!(
        l.poll(150, None, false),
        Some(ListenerSignal::AuthTimeout)
    ));
    // A redirect delivered after the timeout window is not accepted.
    let line = b("GET /?code=late&state=xyz HTTP/1.1\r\n");
    assert!(l.poll(151, Some(&line), false).is_none());
    assert!(l.poll(200, None, false).is_none());
}

#[test]
fn listener_delivers_exactly_once() {
    let mut l = Listener::start(b("xyz"), 0, 150);
    let line = b("GET /?code=abc123&state=xyz HTTP/1.1\r\n");
    match l.poll(10, Some(&line), false) {
        Some(ListenerSignal::Redirect(RedirectOutcome::Code(c))) => assert_eq!(c, b("abc123")),
        _ => panic!("expected the redirect to be delivered"),
    }
    // Delivered exactly once: later polls report nothing.
    assert!(l.poll(11, Some(&line), false).is_none());
    assert!(l.poll(12, None, false).is_none());
}

#[test]
fn listener_cancellation_stops_the_wait() {
    let mut l = Listener::start(b("xyz"), 0, 150);
    assert!(l.poll(5, None, false).is_none());
    assert!(matches!(
        l.poll(6, None, true),
        Some(ListenerSignal::Cancelled)
    ));
    let line = b("GET /?code=abc123&state=xyz HTTP/1.1\r\n");
    assert!(l.poll(7, Some(&line), false).is_none());
}

#[test]
fn fresh_listener_accepts_after_old_one_stopped() {
    let mut old = Listener::start(b("xyz"), 0, 150);
    assert!(matches!(
        old.poll(150, None, false),
        Some(ListenerSignal::AuthTimeout)
    ));
    // A subsequent start on the same port succeeds and works.
    let mut fresh = Listener::start(b("xyz"), 200, 150);
    let line = b("GET /?code=abc123&state=xyz HTTP/1.1\r\n");
    assert!(matches!(
        fresh.poll(201, Some(&line), false),
        Some(ListenerSignal::Redirect(RedirectOutcome::Code(_)))
    ));
}

#[test]
fn ok_response_has_correct_content_length() {
    let r = ok_response();
    let expected = "HTTP/1.1 200 OK\r\ncontent-length: 45\r\n\r\n<p>Retournez dans l'application &#128526;</p>";
    assert_eq!(r, expected.as_bytes().to_vec());
    let body = "<p>Retournez dans l'application &#128526;</p>";
    assert_eq!(body.len(), 45);
}

#[test]
fn decimal_rendering_is_exact() {
    assert_eq!(u64_to_dec(0), b("0"));
    assert_eq!(u64_to_dec(7), b("7"));
    assert_eq!(u64_to_dec(10), b("10"));
    assert_eq!(u64_to_dec(45), b("45"));
    assert_eq!(u64_to_dec(120934), b("120934"));
    assert_eq!(u64_to_dec(u64::MAX), b("18446744073709551615"));
}

#[test]
fn userinfos_listing_is_exact() {
    let pairs = vec![
        (b("name"), b("\"Alice\"")),
        (b("id"), b("42")),
        (b("ok"), b("true")),
    ];
    let out = format_userinfos(&pairs);
    let expected = "[{\"propriété\":\"name\",\"valeur\":\"Alice\"},{\"propriété\":\"id\",\"valeur\":42},{\"propriété\":\"ok\",\"valeur\":true}]";
    assert_eq!(String::from_utf8(out).unwrap(), expected);
}

#[test]
fn userinfos_listing_escapes_keys() {
    let pairs = vec![(b("a\"b\\c\nd"), b("null"))];
    let out = format_userinfos(&pairs);
    let expected = "[{\"propriété\":\"a\\\"b\\\\c\\nd\",\"valeur\":null}]";
    assert_eq!(String::from_utf8(out).unwrap(), expected);
}

#[test]
fn userinfos_listing_empty() {
    let pairs: Vec<(Vec<u8>, Vec<u8>)> = Vec::new();
    assert_eq!(format_userinfos(&pairs), b("[]"));
}

#[test]
fn provider_equality_is_by_identity() {
    assert_eq!(Fournisseur::Microsoft, Fournisseur::Microsoft);
    assert_ne!(Fournisseur::Microsoft, Fournisseur::Google);
    let (auth, token) = Fournisseur::Microsoft.endpoints();
    assert!(auth.starts_with("https://"));
    assert!(token.starts_with("https://"));
    assert!(Fournisseur::Google.userinfos().starts_with("https://"));
}
