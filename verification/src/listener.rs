//! The redirect listener's logic: CSRF-bound validation of the one
//! redirect request, the bounded poll loop as a state machine, and the
//! HTTP response returned to the browser.
//!
//! The listener's socket work (bind, accept, read, write) happens
//! outside; this module decides, from the raw request line and the
//! clock, what the listener does next.

use crate::query::append_bytes;
use crate::query::bytes_eq;
use crate::query::query_lookup;
use crate::query::query_of_line;
use crate::query::spec_query_lookup;
use crate::query::spec_query_of_line;
use vstd::prelude::*;
use vstd::string::StrSliceExecFns;
use vstd::string::StringSliceAdditionalSpecFns;
use vstd::utf8::encode_utf8;

verus! {

/// The bytes of the query key `state`.
pub open spec fn spec_state_key() -> Seq<u8> {
    seq![115u8, 116u8, 97u8, 116u8, 101u8]
}

/// The bytes of the query key `code`.
pub open spec fn spec_code_key() -> Seq<u8> {
    seq![99u8, 111u8, 100u8, 101u8]
}

/// What a redirect request line means, at the specification level.
pub enum RedirectDecision {
    Accept { code: Seq<u8> },
    Mismatch,
    NoCode,
}

/// The decision on one redirect request line, given the state the flow
/// expects. The `state` parameter is checked first: absent or different
/// from the expectation, the redirect is a CSRF mismatch, whatever its
/// `code` says. Only then is the `code` parameter required.
pub open spec fn spec_redirect_decision(line: Seq<u8>, expected: Seq<u8>) -> RedirectDecision {
    let q = spec_query_of_line(line);
    match spec_query_lookup(q, spec_state_key()) {
        None => RedirectDecision::Mismatch,
        Some(st) => if st != expected {
            RedirectDecision::Mismatch
        } else {
            match spec_query_lookup(q, spec_code_key()) {
                Some(c) => RedirectDecision::Accept { code: c },
                None => RedirectDecision::NoCode,
            }
        },
    }
}

/// The outcome the listener reports for one redirect request.
#[derive(Debug)]
pub enum RedirectOutcome {
    /// The state matched and a code was present: its decoded bytes.
    Code(Vec<u8>),
    /// The state parameter was absent or did not match byte-for-byte.
    CsrfMismatch,
    /// The state matched but no code parameter was present.
    MissingCode,
}

impl RedirectOutcome {
    pub open spec fn decision(&self) -> RedirectDecision {
        match self {
            RedirectOutcome::Code(v) => RedirectDecision::Accept { code: v@ },
            RedirectOutcome::CsrfMismatch => RedirectDecision::Mismatch,
            RedirectOutcome::MissingCode => RedirectDecision::NoCode,
        }
    }
}

fn state_key_bytes() -> (r: Vec<u8>)
    ensures
        r@ == spec_state_key(),
{
    let mut k: Vec<u8> = Vec::new();
    k.push(115);
    k.push(116);
    k.push(97);
    k.push(116);
    k.push(101);
    proof {
        assert(k@ =~= spec_state_key());
    }
    k
}

fn code_key_bytes() -> (r: Vec<u8>)
    ensures
        r@ == spec_code_key(),
{
    let mut k: Vec<u8> = Vec::new();
    k.push(99);
    k.push(111);
    k.push(100);
    k.push(101);
    proof {
        assert(k@ =~= spec_code_key());
    }
    k
}

/// Validate one redirect request line against the expected CSRF state:
/// state first (absent or different is a mismatch), then code.
pub fn validate_redirect(line: &Vec<u8>, expected_state: &Vec<u8>) -> (r: RedirectOutcome)
    ensures
        r.decision() == spec_redirect_decision(line@, expected_state@),
{
    let q = query_of_line(line);
    let state_key = state_key_bytes();
    match query_lookup(&q, &state_key) {
        None => RedirectOutcome::CsrfMismatch,
        Some(st) => {
            if !bytes_eq(&st, expected_state) {
                RedirectOutcome::CsrfMismatch
            } else {
                let code_key = code_key_bytes();
                match query_lookup(&q, &code_key) {
                    Some(c) => RedirectOutcome::Code(c),
                    None => RedirectOutcome::MissingCode,
                }
            }
        },
    }
}

/// A redirect whose `state` parameter is absent, or decodes to anything
/// but the expected state, is decided as a CSRF mismatch — never an
/// acceptance — whatever well-formed or malformed `code` it carries.
pub proof fn lemma_state_mismatch_is_csrf_failure(line: Seq<u8>, expected: Seq<u8>)
    requires
        spec_query_lookup(spec_query_of_line(line), spec_state_key()) != Some(expected),
    ensures
        spec_redirect_decision(line, expected) == RedirectDecision::Mismatch,
{
}

/// What one poll of the listener reports.
#[derive(Debug)]
pub enum ListenerSignal {
    /// A connection arrived and was validated.
    Redirect(RedirectOutcome),
    /// The wait budget ran out with no connection.
    AuthTimeout,
    /// The caller cancelled the wait.
    Cancelled,
}

/// What a signal means, at the specification level.
pub enum SignalDecision {
    Deliver(RedirectDecision),
    TimedOut,
    Stopped,
}

impl ListenerSignal {
    pub open spec fn decision(&self) -> SignalDecision {
        match self {
            ListenerSignal::Redirect(o) => SignalDecision::Deliver(o.decision()),
            ListenerSignal::AuthTimeout => SignalDecision::TimedOut,
            ListenerSignal::Cancelled => SignalDecision::Stopped,
        }
    }
}

/// The listener's state: the CSRF state it requires, the instant its
/// wait began, its total wait budget, and whether it has terminated.
/// Once `done` it reports nothing more; the surrounding loop releases
/// the port and exits.
pub struct Listener {
    expected_state: Vec<u8>,
    started: u64,
    budget: u64,
    done: bool,
}

impl Listener {
    pub closed spec fn spec_expected_state(&self) -> Seq<u8> {
        self.expected_state@
    }

    pub closed spec fn spec_started(&self) -> u64 {
        self.started
    }

    pub closed spec fn spec_budget(&self) -> u64 {
        self.budget
    }

    pub closed spec fn spec_done(&self) -> bool {
        self.done
    }

    /// The wait budget is exhausted at `now`.
    pub open spec fn spec_timed_out(&self, now: u64) -> bool {
        now as int - self.spec_started() as int >= self.spec_budget() as int
    }

    /// What one poll reports, as a function of the state and the
    /// inputs: nothing once done; cancellation first; then a pending
    /// connection's validated decision; then the timeout, checked only
    /// when no connection is pending; otherwise nothing yet.
    pub open spec fn spec_poll_signal(
        &self,
        now: u64,
        conn: Option<Seq<u8>>,
        cancelled: bool,
    ) -> Option<SignalDecision> {
        if self.spec_done() {
            None
        } else if cancelled {
            Some(SignalDecision::Stopped)
        } else {
            match conn {
                Some(line) => Some(
                    SignalDecision::Deliver(
                        spec_redirect_decision(line, self.spec_expected_state()),
                    ),
                ),
                None => if self.spec_timed_out(now) {
                    Some(SignalDecision::TimedOut)
                } else {
                    None
                },
            }
        }
    }

    /// Whether the listener is done after one poll: it was done
    /// already, or this poll reported a terminal signal.
    pub open spec fn spec_poll_done_after(
        &self,
        now: u64,
        conn: Option<Seq<u8>>,
        cancelled: bool,
    ) -> bool {
        self.spec_done() || cancelled || conn is Some || self.spec_timed_out(now)
    }

    /// A listener begins its wait at `started` with the whole budget
    /// ahead of it and nothing delivered yet.
    pub fn start(expected_state: Vec<u8>, started: u64, budget: u64) -> (r: Self)
        ensures
            r.spec_expected_state() == expected_state@,
            r.spec_started() == started,
            r.spec_budget() == budget,
            !r.spec_done(),
    {
        Listener { expected_state, started, budget, done: false }
    }

    /// One iteration of the listener loop at instant `now`: a pending
    /// connection's request line (if any) and the cancellation flag come
    /// in; a terminal signal, or nothing, comes out.
    ///
    /// A done listener never reports again and never changes: a redirect
    /// delivered after the timeout or after cancellation is not accepted.
    /// Cancellation is observed before a pending connection, and the
    /// budget is checked only when no connection is pending, so a
    /// redirect found on the very poll that exhausts the budget still
    /// counts.
    pub fn poll(&mut self, now: u64, conn: Option<&Vec<u8>>, cancelled: bool) -> (r: Option<
        ListenerSignal,
    >)
        ensures
            final(self).spec_expected_state() == old(self).spec_expected_state(),
            final(self).spec_started() == old(self).spec_started(),
            final(self).spec_budget() == old(self).spec_budget(),
            final(self).spec_done() == old(self).spec_poll_done_after(
                now,
                match conn {
                    Some(l) => Some(l@),
                    None => None,
                },
                cancelled,
            ),
            match r {
                Some(sig) => old(self).spec_poll_signal(
                    now,
                    match conn {
                        Some(l) => Some(l@),
                        None => None,
                    },
                    cancelled,
                ) == Some(sig.decision()),
                None => old(self).spec_poll_signal(
                    now,
                    match conn {
                        Some(l) => Some(l@),
                        None => None,
                    },
                    cancelled,
                ) is None,
            },
    {
        if self.done {
            return None;
        }
        if cancelled {
            self.done = true;
            return Some(ListenerSignal::Cancelled);
        }
        match conn {
            Some(line) => {
                let outcome = validate_redirect(line, &self.expected_state);
                self.done = true;
                Some(ListenerSignal::Redirect(outcome))
            },
            None => {
                if now >= self.started && now - self.started >= self.budget {
                    self.done = true;
                    Some(ListenerSignal::AuthTimeout)
                } else {
                    None
                }
            },
        }
    }
}

/// A redirect delivered after the listener's timeout window is never
/// accepted: the poll that finds the budget exhausted reports the
/// timeout and leaves the listener done.
pub proof fn lemma_timeout_stops_listener(l: Listener, now: u64)
    requires
        !l.spec_done(),
        l.spec_timed_out(now),
    ensures
        l.spec_poll_signal(now, None, false) == Some(SignalDecision::TimedOut),
        l.spec_poll_done_after(now, None, false),
{
}

/// A done listener delivers nothing, whatever arrives and at whatever
/// instant: no poll of it reports a signal, so no code is ever
/// accepted after the listener has stopped.
pub proof fn lemma_done_listener_accepts_nothing(
    l: Listener,
    now: u64,
    conn: Option<Seq<u8>>,
    cancelled: bool,
)
    requires
        l.spec_done(),
    ensures
        l.spec_poll_signal(now, conn, cancelled) is None,
        l.spec_poll_done_after(now, conn, cancelled),
{
}

/// Decimal digits of a nonnegative number, most significant first.
pub open spec fn spec_dec_digits(n: int) -> Seq<u8>
    decreases n,
{
    if n < 0 {
        Seq::<u8>::empty()
    } else if n < 10 {
        seq![(48 + n) as u8]
    } else {
        spec_dec_digits(n / 10) + seq![(48 + n % 10) as u8]
    }
}

/// Render a number in decimal ASCII.
pub fn u64_to_dec(n: u64) -> (r: Vec<u8>)
    ensures
        r@ == spec_dec_digits(n as int),
{
    let mut out: Vec<u8> = Vec::new();
    let d: u8 = 48 + (n % 10) as u8;
    out.push(d);
    let mut m: u64 = n / 10;
    proof {
        if n < 10 {
            assert(out@ =~= spec_dec_digits(n as int));
        } else {
            assert(out@ =~= seq![(48 + n as int % 10) as u8]);
            assert(spec_dec_digits(n as int) == spec_dec_digits(m as int) + out@);
        }
    }
    while m > 0
        invariant
            m == 0 ==> out@ == spec_dec_digits(n as int),
            m > 0 ==> spec_dec_digits(n as int) == spec_dec_digits(m as int) + out@,
        decreases m,
    {
        let d2: u8 = 48 + ((m % 10) as u8);
        let ghost old_out = out@;
        out.insert(0, d2);
        proof {
            assert(out@ =~= seq![d2] + old_out);
        }
        if m < 10 {
            proof {
                assert(spec_dec_digits(m as int) =~= seq![d2]);
                assert(spec_dec_digits(m as int) + old_out =~= out@);
            }
        } else {
            proof {
                assert(spec_dec_digits(m as int) == spec_dec_digits(m as int / 10) + seq![d2]);
                assert(spec_dec_digits(m as int) + old_out =~= spec_dec_digits(m as int / 10)
                    + out@);
            }
        }
        m = m / 10;
    }
    out
}

/// Only the `CsrfMismatch` outcome can come out of validating a
/// redirect whose state parameter is absent or differs from the
/// expectation; stepping a flow with it therefore fails the flow with
/// `CsrfMismatch` and never reaches the exchange.
pub proof fn lemma_mismatch_outcome_is_csrf(o: RedirectOutcome, line: Seq<u8>, expected: Seq<u8>)
    requires
        o.decision() == spec_redirect_decision(line, expected),
        spec_query_lookup(spec_query_of_line(line), spec_state_key()) != Some(expected),
    ensures
        o is CsrfMismatch,
{
    lemma_state_mismatch_is_csrf_failure(line, expected);
}

/// The short confirmation page shown in the browser.
pub open spec fn spec_response_body() -> Seq<u8> {
    encode_utf8("<p>Retournez dans l'application &#128526;</p>"@)
}

/// The one HTTP response the listener writes: a 200 whose
/// `content-length` is exactly the body's byte length.
pub open spec fn spec_ok_response() -> Seq<u8> {
    encode_utf8("HTTP/1.1 200 OK\r\ncontent-length: "@) + spec_dec_digits(
        spec_response_body().len() as int,
    ) + encode_utf8("\r\n\r\n"@) + spec_response_body()
}

/// Build the minimal HTTP 200 response returned to the browser.
pub fn ok_response() -> (r: Vec<u8>)
    ensures
        r@ == spec_ok_response(),
{
    let body = "<p>Retournez dans l'application &#128526;</p>".as_bytes_vec();
    let mut out = "HTTP/1.1 200 OK\r\ncontent-length: ".as_bytes_vec();
    let lend = u64_to_dec(body.len() as u64);
    append_bytes(&mut out, &lend);
    let sep = "\r\n\r\n".as_bytes_vec();
    append_bytes(&mut out, &sep);
    append_bytes(&mut out, &body);
    proof {
        assert(out@ =~= spec_ok_response());
    }
    out
}

} // verus!
