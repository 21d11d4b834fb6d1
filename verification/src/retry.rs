//! Retry and rate-limit policy of the JSON-RPC clients.
//!
//! Both RPC clients send a request, look at what came back, and either hand
//! the result over, give up with an error, or wait and try again. The waiting
//! and the network round-trip are done by the caller; this module decides.
//! A loop starts at attempt 0; each retryable outcome records its error and,
//! while attempts remain, asks for another attempt after an exponential
//! backoff: the transport's first retry waits 100 ms, the Soroban client's
//! 200 ms, and each later wait doubles the one before. Once the retries are
//! used up the last recorded error is returned.
use vstd::prelude::*;
use vstd::string::*;
use crate::error::{ErrorView, PrismError};
use crate::text::push_str;

verus! {

/// Retries the Soroban RPC client makes after its first attempt.
pub const SOROBAN_MAX_RETRIES: u32 = 3;

/// The Soroban RPC client's request timeout, in seconds.
pub const SOROBAN_TIMEOUT_SECS: u64 = 30;

/// Which client's policy and messages to follow.
#[derive(Clone, Copy, PartialEq, Eq, Debug)]
pub enum RpcFlavor {
    /// The generic JSON-RPC transport: every attempt is bounded by a deadline,
    /// and any failure to send or read counts as a transient failure.
    Transport,
    /// The Soroban RPC client: unreadable bodies and non-success HTTP statuses
    /// end the call at once.
    SorobanClient,
}

/// How the body of a response parsed as a JSON-RPC envelope.
#[derive(Debug)]
pub enum EnvelopeOutcome {
    /// The body was not a valid envelope; the parser's message.
    Malformed(String),
    /// The envelope carried an error object; its message.
    ErrorObject(String),
    /// The envelope carried neither an error nor a result.
    NoResult,
    /// The envelope carried a result.
    HasResult,
}

/// What one attempt produced.
#[derive(Debug)]
pub enum AttemptOutcome {
    /// The attempt did not complete before its deadline.
    TimedOut,
    /// The request could not be sent or its response not received.
    TransportFailed(String),
    /// A response arrived but its body could not be read.
    BodyUnreadable(String),
    /// A response arrived with the given status; `status_text` is how the
    /// status displays (e.g. `404 Not Found`).
    Responded { status: u16, status_text: String, body: String, envelope: EnvelopeOutcome },
}

/// What the caller does next.
#[derive(Debug)]
pub enum RetryStep {
    /// Wait this many milliseconds, then make the next attempt.
    Attempt { backoff_ms: u64 },
    /// Hand the parsed result over to the caller.
    Deliver,
    /// Give up with this error.
    Fail(PrismError),
}

pub enum EnvelopeView {
    Malformed(Seq<char>),
    ErrorObject(Seq<char>),
    NoResult,
    HasResult,
}

pub enum OutcomeView {
    TimedOut,
    TransportFailed(Seq<char>),
    BodyUnreadable(Seq<char>),
    Responded { status: u16, status_text: Seq<char>, body: Seq<char>, envelope: EnvelopeView },
}

pub enum StepView {
    Attempt { backoff_ms: u64 },
    Deliver,
    Fail(ErrorView),
}

impl View for EnvelopeOutcome {
    type V = EnvelopeView;

    open spec fn view(&self) -> EnvelopeView {
        match self {
            EnvelopeOutcome::Malformed(m) => EnvelopeView::Malformed(m@),
            EnvelopeOutcome::ErrorObject(m) => EnvelopeView::ErrorObject(m@),
            EnvelopeOutcome::NoResult => EnvelopeView::NoResult,
            EnvelopeOutcome::HasResult => EnvelopeView::HasResult,
        }
    }
}

impl View for AttemptOutcome {
    type V = OutcomeView;

    open spec fn view(&self) -> OutcomeView {
        match self {
            AttemptOutcome::TimedOut => OutcomeView::TimedOut,
            AttemptOutcome::TransportFailed(m) => OutcomeView::TransportFailed(m@),
            AttemptOutcome::BodyUnreadable(m) => OutcomeView::BodyUnreadable(m@),
            AttemptOutcome::Responded { status, status_text, body, envelope } => {
                OutcomeView::Responded {
                    status: *status,
                    status_text: status_text@,
                    body: body@,
                    envelope: envelope@,
                }
            },
        }
    }
}

impl View for RetryStep {
    type V = StepView;

    open spec fn view(&self) -> StepView {
        match self {
            RetryStep::Attempt { backoff_ms } => StepView::Attempt { backoff_ms: *backoff_ms },
            RetryStep::Deliver => StepView::Deliver,
            RetryStep::Fail(e) => StepView::Fail(e@),
        }
    }
}

/// `2^e`.
pub open spec fn two_pow(e: nat) -> nat
    decreases e,
{
    if e == 0 {
        1
    } else {
        2 * two_pow((e - 1) as nat)
    }
}

/// `100 * 2^exponent`: an exponential backoff in milliseconds.
pub open spec fn backoff_spec(exponent: nat) -> nat {
    100 * two_pow(exponent)
}

/// Whether `100 * 2^exponent` fits in a `u64`.
pub open spec fn backoff_fits(exponent: nat) -> bool {
    backoff_spec(exponent) <= u64::MAX
}

/// The wait before attempt number `attempt` (at least 1) of a call, in
/// milliseconds: the transport's retries start at 100 ms, the Soroban
/// client's at 200 ms, and each wait doubles the one before.
pub open spec fn retry_wait(flavor: RpcFlavor, attempt: nat) -> nat {
    if flavor == RpcFlavor::Transport {
        backoff_spec((attempt - 1) as nat)
    } else {
        backoff_spec(attempt)
    }
}

/// Whether the wait before attempt number `attempt` fits in a `u64`.
pub open spec fn wait_fits(flavor: RpcFlavor, attempt: nat) -> bool {
    retry_wait(flavor, attempt) <= u64::MAX
}

/// The error an outcome records when it is worth another attempt, or `None`
/// when the outcome ends the call.
pub open spec fn recorded_error(
    flavor: RpcFlavor,
    method: Seq<char>,
    timeout_secs: u64,
    o: OutcomeView,
) -> Option<ErrorView> {
    match o {
        OutcomeView::TimedOut => Some(ErrorView::NetworkTimeout { method, timeout_secs }),
        OutcomeView::TransportFailed(e) => Some(
            ErrorView::Rpc(
                if flavor == RpcFlavor::Transport {
                    "request failed: "@ + e
                } else {
                    "HTTP request failed: "@ + e
                },
            ),
        ),
        OutcomeView::BodyUnreadable(e) => if flavor == RpcFlavor::Transport {
            Some(ErrorView::Rpc("request failed: "@ + e))
        } else {
            None
        },
        OutcomeView::Responded { status, .. } => if status == 429 {
            Some(
                ErrorView::Rpc(
                    if flavor == RpcFlavor::Transport {
                        "rate limited"@
                    } else {
                        "Rate limited (HTTP 429)"@
                    },
                ),
            )
        } else {
            None
        },
    }
}

/// How an outcome that records no error ends the call.
pub open spec fn final_step(flavor: RpcFlavor, o: OutcomeView) -> StepView {
    match o {
        OutcomeView::BodyUnreadable(e) => StepView::Fail(
            ErrorView::Rpc("Failed to read response body: "@ + e),
        ),
        OutcomeView::Responded { status, status_text, body, envelope } => {
            if flavor == RpcFlavor::SorobanClient && !(200 <= status && status < 300) {
                StepView::Fail(
                    ErrorView::Rpc(
                        "RPC request failed with HTTP "@ + status_text + ": "@ + body,
                    ),
                )
            } else {
                match envelope {
                    EnvelopeView::Malformed(e) => StepView::Fail(
                        ErrorView::Rpc(
                            if flavor == RpcFlavor::Transport {
                                "response parse error: "@ + e
                            } else {
                                "Response parse error: "@ + e
                            },
                        ),
                    ),
                    EnvelopeView::ErrorObject(m) => StepView::Fail(ErrorView::Rpc(m)),
                    EnvelopeView::NoResult => StepView::Fail(
                        ErrorView::Rpc(
                            if flavor == RpcFlavor::Transport {
                                "empty result"@
                            } else {
                                "Empty result in RPC response"@
                            },
                        ),
                    ),
                    EnvelopeView::HasResult => StepView::Deliver,
                }
            }
        },
        _ => StepView::Deliver,
    }
}

/// The next attempt number and step after `o` at attempt `attempt`.
pub open spec fn next_step(
    flavor: RpcFlavor,
    method: Seq<char>,
    timeout_secs: u64,
    max_retries: u32,
    attempt: u32,
    o: OutcomeView,
) -> (u32, StepView) {
    match recorded_error(flavor, method, timeout_secs, o) {
        Some(e) => if attempt < max_retries {
            (
                (attempt + 1) as u32,
                StepView::Attempt { backoff_ms: retry_wait(flavor, (attempt + 1) as nat) as u64 },
            )
        } else {
            (attempt, StepView::Fail(e))
        },
        None => (attempt, final_step(flavor, o)),
    }
}

/// Whether `record` can compute the wait the outcome may call for.
pub open spec fn step_fits(
    flavor: RpcFlavor,
    max_retries: u32,
    attempt: u32,
    o: OutcomeView,
) -> bool {
    recorded_error(flavor, Seq::empty(), 0, o) is Some && attempt < max_retries ==> wait_fits(
        flavor,
        (attempt + 1) as nat,
    )
}

/// The decision state of one JSON-RPC call.
pub struct RetryLoop {
    flavor: RpcFlavor,
    method: String,
    timeout_secs: u64,
    max_retries: u32,
    attempt: u32,
}

impl RetryLoop {
    pub closed spec fn flavor(&self) -> RpcFlavor {
        self.flavor
    }

    pub closed spec fn method(&self) -> Seq<char> {
        self.method@
    }

    pub closed spec fn timeout_secs(&self) -> u64 {
        self.timeout_secs
    }

    pub closed spec fn max_retries(&self) -> u32 {
        self.max_retries
    }

    /// The number of the attempt in flight; attempt 0 is the first.
    pub closed spec fn attempt(&self) -> u32 {
        self.attempt
    }

    /// Starts a call: the first attempt goes out at once.
    pub fn new(flavor: RpcFlavor, method: String, timeout_secs: u64, max_retries: u32) -> (r: Self)
        ensures
            r.flavor() == flavor,
            r.method() == method@,
            r.timeout_secs() == timeout_secs,
            r.max_retries() == max_retries,
            r.attempt() == 0,
    {
        RetryLoop { flavor, method, timeout_secs, max_retries, attempt: 0 }
    }

    /// Decides what follows the outcome of the attempt in flight.
    pub fn record(&mut self, outcome: AttemptOutcome) -> (step: RetryStep)
        requires
            old(self).attempt() <= old(self).max_retries(),
            step_fits(old(self).flavor(), old(self).max_retries(), old(self).attempt(), outcome@),
        ensures
            final(self).flavor() == old(self).flavor(),
            final(self).method() == old(self).method(),
            final(self).timeout_secs() == old(self).timeout_secs(),
            final(self).max_retries() == old(self).max_retries(),
            final(self).attempt() <= final(self).max_retries(),
            (final(self).attempt(), step@) == next_step(
                old(self).flavor(),
                old(self).method(),
                old(self).timeout_secs(),
                old(self).max_retries(),
                old(self).attempt(),
                outcome@,
            ),
    {
        let recorded = self.error_for(&outcome);
        match recorded {
            Some(e) => {
                if self.attempt < self.max_retries {
                    self.attempt = self.attempt + 1;
                    let exponent = match self.flavor {
                        RpcFlavor::Transport => self.attempt - 1,
                        RpcFlavor::SorobanClient => self.attempt,
                    };
                    let backoff_ms = backoff_ms(exponent);
                    RetryStep::Attempt { backoff_ms }
                } else {
                    RetryStep::Fail(e)
                }
            },
            None => self.finish(outcome),
        }
    }

    /// The error a retryable outcome records.
    fn error_for(&self, outcome: &AttemptOutcome) -> (e: Option<PrismError>)
        ensures
            match e {
                Some(e) => recorded_error(self.flavor(), self.method(), self.timeout_secs(), outcome@)
                    == Some(e@),
                None => recorded_error(self.flavor(), self.method(), self.timeout_secs(), outcome@)
                    is None,
            },
    {
        let transport = match self.flavor {
            RpcFlavor::Transport => true,
            RpcFlavor::SorobanClient => false,
        };
        match outcome {
            AttemptOutcome::TimedOut => Some(
                PrismError::NetworkTimeout {
                    method: self.method.clone(),
                    timeout_secs: self.timeout_secs,
                },
            ),
            AttemptOutcome::TransportFailed(e) => {
                let prefix = if transport {
                    "request failed: "
                } else {
                    "HTTP request failed: "
                };
                let mut m = String::from_str(prefix);
                push_str(&mut m, e.as_str());
                Some(PrismError::RpcError(m))
            },
            AttemptOutcome::BodyUnreadable(e) => {
                if transport {
                    let mut m = String::from_str("request failed: ");
                    push_str(&mut m, e.as_str());
                    Some(PrismError::RpcError(m))
                } else {
                    None
                }
            },
            AttemptOutcome::Responded { status, .. } => {
                if *status == 429 {
                    if transport {
                        Some(PrismError::RpcError(String::from_str("rate limited")))
                    } else {
                        Some(PrismError::RpcError(String::from_str("Rate limited (HTTP 429)")))
                    }
                } else {
                    None
                }
            },
        }
    }

    /// The step that ends the call for an outcome that records no error.
    fn finish(&self, outcome: AttemptOutcome) -> (step: RetryStep)
        ensures
            step@ == final_step(self.flavor(), outcome@),
    {
        let transport = match self.flavor {
            RpcFlavor::Transport => true,
            RpcFlavor::SorobanClient => false,
        };
        match outcome {
            AttemptOutcome::BodyUnreadable(e) => {
                let mut m = String::from_str("Failed to read response body: ");
                push_str(&mut m, e.as_str());
                RetryStep::Fail(PrismError::RpcError(m))
            },
            AttemptOutcome::Responded { status, status_text, body, envelope } => {
                if !transport && !(200 <= status && status < 300) {
                    let mut m = String::from_str("RPC request failed with HTTP ");
                    push_str(&mut m, status_text.as_str());
                    push_str(&mut m, ": ");
                    push_str(&mut m, body.as_str());
                    RetryStep::Fail(PrismError::RpcError(m))
                } else {
                    match envelope {
                        EnvelopeOutcome::Malformed(e) => {
                            let prefix = if transport {
                                "response parse error: "
                            } else {
                                "Response parse error: "
                            };
                            let mut m = String::from_str(prefix);
                            push_str(&mut m, e.as_str());
                            RetryStep::Fail(PrismError::RpcError(m))
                        },
                        EnvelopeOutcome::ErrorObject(m) => RetryStep::Fail(PrismError::RpcError(m)),
                        EnvelopeOutcome::NoResult => {
                            if transport {
                                RetryStep::Fail(PrismError::RpcError(String::from_str("empty result")))
                            } else {
                                RetryStep::Fail(
                                    PrismError::RpcError(
                                        String::from_str("Empty result in RPC response"),
                                    ),
                                )
                            }
                        },
                        EnvelopeOutcome::HasResult => RetryStep::Deliver,
                    }
                }
            },
            _ => RetryStep::Deliver,
        }
    }
}

proof fn lemma_two_pow_monotone(a: nat, b: nat)
    requires
        a <= b,
    ensures
        two_pow(a) <= two_pow(b),
    decreases b,
{
    if a < b {
        lemma_two_pow_monotone(a, (b - 1) as nat);
    }
}

/// `100 * 2^exponent` milliseconds, the exponential backoff of the clients.
pub fn backoff_ms(exponent: u32) -> (ms: u64)
    requires
        backoff_fits(exponent as nat),
    ensures
        ms == backoff_spec(exponent as nat),
{
    let mut p: u64 = 1;
    let mut k: u32 = 0;
    while k < exponent
        invariant
            k <= exponent,
            p == two_pow(k as nat),
            100 * two_pow(exponent as nat) <= u64::MAX,
        decreases exponent - k,
    {
        proof {
            lemma_two_pow_monotone((k + 1) as nat, exponent as nat);
        }
        p = p * 2;
        k = k + 1;
    }
    100 * p
}

/// Attempts stay within the configured budget: after any outcome the attempt
/// number is at most `max_retries`, so at most `max_retries + 1` requests are
/// sent.
pub proof fn law_attempts_bounded(
    flavor: RpcFlavor,
    method: Seq<char>,
    timeout_secs: u64,
    max_retries: u32,
    attempt: u32,
    o: OutcomeView,
)
    requires
        attempt <= max_retries,
    ensures
        next_step(flavor, method, timeout_secs, max_retries, attempt, o).0 <= max_retries,
        next_step(flavor, method, timeout_secs, max_retries, attempt, o).1 is Attempt
            ==> next_step(flavor, method, timeout_secs, max_retries, attempt, o).0 == attempt + 1,
        !(next_step(flavor, method, timeout_secs, max_retries, attempt, o).1 is Attempt)
            ==> next_step(flavor, method, timeout_secs, max_retries, attempt, o).0 == attempt,
{
}

/// Each wait is twice the one before it; before the second attempt the
/// transport waits 100 ms and the Soroban client 200 ms.
pub proof fn law_backoff_doubles(flavor: RpcFlavor, attempt: nat)
    requires
        attempt >= 1,
    ensures
        retry_wait(flavor, attempt + 1) == 2 * retry_wait(flavor, attempt),
        retry_wait(RpcFlavor::Transport, 1) == 100,
        retry_wait(RpcFlavor::SorobanClient, 1) == 200,
{
    assert(two_pow(0) == 1);
    assert(two_pow(1) == 2);
    assert(two_pow(attempt + 1) == 2 * two_pow(attempt));
    assert(two_pow(attempt) == 2 * two_pow((attempt - 1) as nat));
}

/// When the retries are used up, a retryable outcome ends the call with the
/// error that outcome records; the call never ends with a made-up error.
pub proof fn law_exhaustion_returns_last_error(
    flavor: RpcFlavor,
    method: Seq<char>,
    timeout_secs: u64,
    max_retries: u32,
    o: OutcomeView,
)
    requires
        recorded_error(flavor, method, timeout_secs, o) is Some,
    ensures
        next_step(flavor, method, timeout_secs, max_retries, max_retries, o).1 == StepView::Fail(
            recorded_error(flavor, method, timeout_secs, o)->0,
        ),
{
}

/// An outcome that records no error ends the call the same way at every
/// attempt: retries never change how a definitive answer is handled.
pub proof fn law_definitive_answers_do_not_depend_on_attempt(
    flavor: RpcFlavor,
    method: Seq<char>,
    timeout_secs: u64,
    max_retries: u32,
    a1: u32,
    a2: u32,
    o: OutcomeView,
)
    requires
        recorded_error(flavor, method, timeout_secs, o) is None,
    ensures
        next_step(flavor, method, timeout_secs, max_retries, a1, o).1 == next_step(
            flavor,
            method,
            timeout_secs,
            max_retries,
            a2,
            o,
        ).1,
        !(next_step(flavor, method, timeout_secs, max_retries, a1, o).1 is Attempt),
{
    match o {
        OutcomeView::Responded { envelope, .. } => {
            match envelope {
                _ => {},
            }
        },
        _ => {},
    }
}

/// A timed-out attempt is a transient failure: it is retried while attempts
/// remain, and when none remain the call fails with a timeout naming the
/// method and the deadline.
pub proof fn law_timeout_is_transient(
    flavor: RpcFlavor,
    method: Seq<char>,
    timeout_secs: u64,
    max_retries: u32,
    attempt: u32,
)
    requires
        attempt <= max_retries,
    ensures
        attempt < max_retries ==> next_step(
            flavor,
            method,
            timeout_secs,
            max_retries,
            attempt,
            OutcomeView::TimedOut,
        ) == ((attempt + 1) as u32, StepView::Attempt {
            backoff_ms: retry_wait(flavor, (attempt + 1) as nat) as u64,
        }),
        attempt == max_retries ==> next_step(
            flavor,
            method,
            timeout_secs,
            max_retries,
            attempt,
            OutcomeView::TimedOut,
        ) == (attempt, StepView::Fail(ErrorView::NetworkTimeout { method, timeout_secs })),
{
}

/// For the generic transport, a response whose body could not be read is a
/// transient transport failure: it is retried while attempts remain, and
/// when none remain the call fails with `request failed: ` and the reason.
pub proof fn law_transport_body_read_failure_is_transient(
    method: Seq<char>,
    timeout_secs: u64,
    max_retries: u32,
    attempt: u32,
    e: Seq<char>,
)
    requires
        attempt <= max_retries,
    ensures
        attempt < max_retries ==> next_step(
            RpcFlavor::Transport,
            method,
            timeout_secs,
            max_retries,
            attempt,
            OutcomeView::BodyUnreadable(e),
        ).0 == attempt + 1 && next_step(
            RpcFlavor::Transport,
            method,
            timeout_secs,
            max_retries,
            attempt,
            OutcomeView::BodyUnreadable(e),
        ).1 is Attempt,
        attempt == max_retries ==> next_step(
            RpcFlavor::Transport,
            method,
            timeout_secs,
            max_retries,
            attempt,
            OutcomeView::BodyUnreadable(e),
        ) == (attempt, StepView::Fail(ErrorView::Rpc("request failed: "@ + e))),
{
}

/// A rate-limited response is always retried while attempts remain, for both
/// clients.
pub proof fn law_rate_limit_is_retried(
    flavor: RpcFlavor,
    method: Seq<char>,
    timeout_secs: u64,
    max_retries: u32,
    attempt: u32,
    status_text: Seq<char>,
    body: Seq<char>,
    envelope: EnvelopeView,
)
    requires
        attempt < max_retries,
    ensures
        next_step(
            flavor,
            method,
            timeout_secs,
            max_retries,
            attempt,
            OutcomeView::Responded { status: 429, status_text, body, envelope },
        ).1 is Attempt,
{
}

} // verus!
