//! The resilient dispatcher: which endpoint is asked next, when a request is
//! repeated and after how long, and how a call ends.
//!
//! The dispatcher sends nothing itself. It is a state that names the endpoint
//! to ask; the caller sends the request there and reports how that went, and
//! the dispatcher answers with the next step. The address to send to is handed
//! out only for an attempt that has passed the pacer, so that every attempt,
//! repeated ones too, takes its turn there.

use crate::error::{BundleError, ConfigurationIssue, FailureKind, HttpFailure};
use crate::pacing::{recorded, throttle_wait, PacingGate};
use crate::text::{parse_u64, parsed_u64};
use vstd::arithmetic::power2::{lemma2_to64, lemma_pow2_strictly_increases, pow2};
use vstd::prelude::*;

verus! {

/// The number of requests that one endpoint gets at most.
pub const MAX_ATTEMPTS: u8 = 3;

/// The longest pause between two requests to one endpoint, in seconds.
pub const MAX_BACKOFF_SECS: u64 = 8;

/// How one request ended.
#[derive(Clone, Debug, PartialEq, Eq)]
pub enum Exchange {
    /// The request could not be sent or no response arrived; the text is the
    /// transport's description.
    SendFailed { detail: String },
    /// A response arrived. `retry_after` is the text of its `Retry-After`
    /// header, where it has one.
    Response { status: u16, retry_after: Option<String>, body: String },
}

/// Whether a status asks for the same request again: 429 and 500 to 599.
pub open spec fn is_retryable_status(status: u16) -> bool {
    status == 429 || (500 <= status && status <= 599)
}

/// Whether a status reports success: 200 to 299.
pub open spec fn is_success_status(status: u16) -> bool {
    200 <= status && status <= 299
}

/// Whether a status refuses the request as such: 400 to 499 other than 429.
pub open spec fn is_client_error_status(status: u16) -> bool {
    400 <= status && status <= 499 && status != 429
}

/// The kind of failure that a status outside 200 to 299 stands for.
pub open spec fn failure_kind(status: u16) -> FailureKind {
    if status == 429 {
        FailureKind::RateLimited
    } else if 500 <= status && status <= 599 {
        FailureKind::ServerError
    } else if 400 <= status && status <= 499 {
        FailureKind::ClientError
    } else {
        FailureKind::UnexpectedStatus
    }
}

/// The pause after a failed attempt with the given index when the endpoint
/// gave no hint: two to the power of the index, at most eight seconds.
pub open spec fn exponential_backoff(attempt: nat) -> nat {
    if pow2(attempt) <= MAX_BACKOFF_SECS {
        pow2(attempt)
    } else {
        MAX_BACKOFF_SECS as nat
    }
}

/// The number of seconds that a `Retry-After` header asks for, where the
/// header is there and is a decimal number.
pub open spec fn hinted_seconds(retry_after: Option<String>) -> Option<u64> {
    match retry_after {
        Some(text) => parsed_u64(text@),
        None => None,
    }
}

/// The pause before the next attempt: the endpoint's hint where it gave one,
/// else the exponential pause; at most eight seconds either way.
pub open spec fn backoff_seconds(attempt: nat, hint: Option<u64>) -> nat {
    match hint {
        Some(seconds) => if seconds <= MAX_BACKOFF_SECS {
            seconds as nat
        } else {
            MAX_BACKOFF_SECS as nat
        },
        None => exponential_backoff(attempt),
    }
}

/// The failure that a response with a status outside 200 to 299 stands for.
pub open spec fn status_failure(url: String, status: u16, body: String) -> HttpFailure {
    HttpFailure { kind: failure_kind(status), status: Some(status), url, text: body }
}

/// The failure that a request without a response stands for.
pub open spec fn transport_failure(url: String, detail: String) -> HttpFailure {
    HttpFailure { kind: FailureKind::TransportError, status: None, url, text: detail }
}

/// A call in progress whose next attempt has yet to pass the pacer: the
/// registry, the endpoint to ask, the index of the attempt there, and the
/// least interval before each request.
#[derive(Debug, PartialEq, Eq)]
pub struct Dispatch {
    urls: Vec<String>,
    endpoint: usize,
    attempt: u8,
    min_interval_ms: u64,
}

/// An attempt that has passed the pacer: the request may be sent.
#[derive(Debug, PartialEq, Eq)]
pub struct Attempt {
    call: Dispatch,
}

/// What a call in progress is, as plain values.
pub ghost struct DispatchView {
    pub urls: Seq<String>,
    pub endpoint: nat,
    pub attempt: nat,
    pub min_interval_ms: u64,
}

impl DispatchView {
    /// The endpoint exists and has attempts left.
    pub open spec fn wf(self) -> bool {
        self.endpoint < self.urls.len() && self.attempt < MAX_ATTEMPTS
    }

    /// The address that the request under way goes to.
    pub open spec fn url(self) -> String {
        self.urls[self.endpoint as int]
    }

    /// The same call, one attempt later at the same endpoint.
    pub open spec fn retry(self) -> DispatchView {
        DispatchView { attempt: self.attempt + 1, ..self }
    }

    /// The same call at the first attempt of the next endpoint.
    pub open spec fn next_endpoint(self) -> DispatchView {
        DispatchView { endpoint: self.endpoint + 1, attempt: 0, ..self }
    }

    /// The number of requests that the call makes from here on if every one of
    /// them fails in a way that may pass.
    pub open spec fn requests_left(self) -> nat {
        (MAX_ATTEMPTS * (self.urls.len() - self.endpoint) - self.attempt) as nat
    }
}

impl View for Dispatch {
    type V = DispatchView;

    closed spec fn view(&self) -> DispatchView {
        DispatchView {
            urls: self.urls@,
            endpoint: self.endpoint as nat,
            attempt: self.attempt as nat,
            min_interval_ms: self.min_interval_ms,
        }
    }
}

impl View for Attempt {
    type V = DispatchView;

    closed spec fn view(&self) -> DispatchView {
        self.call@
    }
}

/// What follows a reported exchange.
#[derive(Debug, PartialEq, Eq)]
pub enum Step {
    /// Wait for `seconds`, then make another attempt at the same endpoint.
    Backoff { seconds: u64, next: Dispatch },
    /// Make an attempt at the next endpoint of the registry.
    NextEndpoint { next: Dispatch },
    /// The call is over: the body of the response, or the failure.
    Done(Result<String, BundleError>),
}

/// What follows a reported exchange, as plain values.
pub ghost enum StepView {
    Backoff { seconds: nat, next: DispatchView },
    NextEndpoint { next: DispatchView },
    Done(Result<String, BundleError>),
}

impl View for Step {
    type V = StepView;

    open spec fn view(&self) -> StepView {
        match *self {
            Step::Backoff { seconds, next } => StepView::Backoff {
                seconds: seconds as nat,
                next: next@,
            },
            Step::NextEndpoint { next } => StepView::NextEndpoint { next: next@ },
            Step::Done(result) => StepView::Done(result),
        }
    }
}

/// The state in which a call over the registry `urls` begins: the first
/// attempt at the first endpoint.
pub open spec fn first_attempt(urls: Seq<String>, min_interval_ms: u64) -> DispatchView {
    DispatchView { urls, endpoint: 0, attempt: 0, min_interval_ms }
}

/// What follows when the endpoint under way has failed for good with
/// `failure`, in a way that may pass elsewhere: the next endpoint, or the end
/// of the call where there is none.
pub open spec fn after_endpoint_failure(d: DispatchView, failure: HttpFailure) -> StepView {
    if d.endpoint + 1 < d.urls.len() {
        StepView::NextEndpoint { next: d.next_endpoint() }
    } else {
        StepView::Done(Err(BundleError::EndpointsExhausted(failure)))
    }
}

/// The step that follows exchange `x` in state `d`.
///
/// A request without a response, and a response with a retryable status, are
/// followed by a pause and another attempt while the endpoint has attempts
/// left; after the last attempt the endpoint has failed. A success ends the
/// call with the body. A client error ends the call at once, whatever
/// endpoints are left. Any other status fails the endpoint without another
/// attempt.
pub open spec fn step(d: DispatchView, x: Exchange) -> StepView {
    let attempts_left = d.attempt + 1 < MAX_ATTEMPTS;
    match x {
        Exchange::SendFailed { detail } => if attempts_left {
            StepView::Backoff { seconds: exponential_backoff(d.attempt), next: d.retry() }
        } else {
            after_endpoint_failure(d, transport_failure(d.url(), detail))
        },
        Exchange::Response { status, retry_after, body } => if is_retryable_status(status)
            && attempts_left {
            StepView::Backoff {
                seconds: backoff_seconds(d.attempt, hinted_seconds(retry_after)),
                next: d.retry(),
            }
        } else if is_success_status(status) {
            StepView::Done(Ok(body))
        } else if is_client_error_status(status) {
            StepView::Done(Err(BundleError::ClientError(status_failure(d.url(), status, body))))
        } else {
            after_endpoint_failure(d, status_failure(d.url(), status, body))
        },
    }
}

/// Whether the body of a response with the given status is looked at in
/// state `d`: not where the response is followed by another attempt.
pub open spec fn body_matters(d: DispatchView, status: u16) -> bool {
    !(is_retryable_status(status) && d.attempt + 1 < MAX_ATTEMPTS)
}

/// A body that is not looked at changes nothing: the response is followed by
/// the same step whatever its body.
pub proof fn lemma_unread_body_is_ignored(
    d: DispatchView,
    status: u16,
    retry_after: Option<String>,
    body: String,
    other: String,
)
    requires
        !body_matters(d, status),
    ensures
        step(d, Exchange::Response { status, retry_after, body }) == step(
            d,
            Exchange::Response { status, retry_after, body: other },
        ),
{
}

/// Whether an exchange is a failure that may pass: no response, or a response
/// with a retryable status.
pub open spec fn is_transient(x: Exchange) -> bool {
    match x {
        Exchange::SendFailed { .. } => true,
        Exchange::Response { status, .. } => is_retryable_status(status),
    }
}

/// The failure that an exchange stands for when it is reported for a request
/// to `url`.
pub open spec fn failure_of(url: String, x: Exchange) -> HttpFailure {
    match x {
        Exchange::SendFailed { detail } => transport_failure(url, detail),
        Exchange::Response { status, body, .. } => status_failure(url, status, body),
    }
}

/// What a call did: the endpoints that got a request, by their place in the
/// registry and in the order of the requests, and how the call ended, if it
/// has.
pub ghost struct Trace {
    pub requests: Seq<nat>,
    pub outcome: Option<Result<String, BundleError>>,
}

/// The trace of a call that starts in state `d` and whose requests end, one
/// after the other, as `script` says. Exchanges after the end of the call are
/// never asked for.
pub open spec fn run(d: DispatchView, script: Seq<Exchange>) -> Trace
    decreases script.len(),
{
    if script.len() == 0 {
        Trace { requests: Seq::empty(), outcome: None }
    } else {
        match step(d, script[0]) {
            StepView::Backoff { next, .. } => {
                let rest = run(next, script.drop_first());
                Trace { requests: seq![d.endpoint] + rest.requests, outcome: rest.outcome }
            },
            StepView::NextEndpoint { next } => {
                let rest = run(next, script.drop_first());
                Trace { requests: seq![d.endpoint] + rest.requests, outcome: rest.outcome }
            },
            StepView::Done(result) => Trace { requests: seq![d.endpoint], outcome: Some(result) },
        }
    }
}

/// A success ends the call at once with the body of the response.
pub proof fn lemma_success_ends_call(d: DispatchView, script: Seq<Exchange>)
    requires
        d.wf(),
        script.len() > 0,
        script[0] is Response,
        is_success_status(script[0]->status),
    ensures
        run(d, script).requests == seq![d.endpoint],
        run(d, script).outcome == Some(Ok::<String, BundleError>(script[0]->body)),
{
}

/// A client error ends the call at once: the endpoint that gave it gets no
/// further request, and no endpoint after it gets any.
pub proof fn lemma_client_error_ends_call(d: DispatchView, script: Seq<Exchange>)
    requires
        d.wf(),
        script.len() > 0,
        script[0] is Response,
        is_client_error_status(script[0]->status),
    ensures
        run(d, script).requests == seq![d.endpoint],
        run(d, script).outcome == Some(
            Err::<String, BundleError>(BundleError::ClientError(failure_of(d.url(), script[0]))),
        ),
{
}

/// Where every request fails in a way that may pass, each endpoint from the
/// one under way gets exactly three attempts, in the order of the registry,
/// and the call ends exhausted with the failure of the last request.
pub proof fn lemma_transient_failures_exhaust(d: DispatchView, script: Seq<Exchange>)
    requires
        d.wf(),
        script.len() >= d.requests_left(),
        forall|i: int| 0 <= i < d.requests_left() ==> is_transient(#[trigger] script[i]),
    ensures
        run(d, script).requests.len() == d.requests_left(),
        forall|k: int|
            0 <= k < d.requests_left() ==> #[trigger] run(d, script).requests[k] == d.endpoint + (
            d.attempt + k) / (MAX_ATTEMPTS as int),
        run(d, script).outcome == Some(
            Err::<String, BundleError>(
                BundleError::EndpointsExhausted(
                    failure_of(d.urls.last(), script[d.requests_left() - 1]),
                ),
            ),
        ),
    decreases script.len(),
{
    let first = script[0];
    assert(is_transient(first));
    let rest = script.drop_first();
    if d.attempt + 1 < MAX_ATTEMPTS || d.endpoint + 1 < d.urls.len() {
        let next = if d.attempt + 1 < MAX_ATTEMPTS {
            d.retry()
        } else {
            d.next_endpoint()
        };
        assert(next.requests_left() == d.requests_left() - 1);
        assert forall|i: int| 0 <= i < next.requests_left() implies is_transient(
            #[trigger] rest[i],
        ) by {
            assert(rest[i] == script[i + 1]);
        }
        lemma_transient_failures_exhaust(next, rest);
        let tail = run(next, rest);
        assert(run(d, script).requests == seq![d.endpoint] + tail.requests);
        assert(rest[next.requests_left() - 1] == script[d.requests_left() - 1]);
        assert forall|k: int| 0 <= k < d.requests_left() implies #[trigger] run(
            d,
            script,
        ).requests[k] == d.endpoint + (d.attempt + k) / (MAX_ATTEMPTS as int) by {
            if k > 0 {
                assert(run(d, script).requests[k] == tail.requests[k - 1]);
            }
        }
    }
}

/// An endpoint that always fails in a way that may pass gets exactly three
/// requests before the call over it alone fails.
pub proof fn lemma_failing_endpoint_gets_three_requests(
    url: String,
    min_interval_ms: u64,
    script: Seq<Exchange>,
)
    requires
        script.len() >= 3,
        forall|i: int| 0 <= i < 3 ==> is_transient(#[trigger] script[i]),
    ensures
        run(first_attempt(seq![url], min_interval_ms), script).requests == seq![0nat, 0nat, 0nat],
        run(first_attempt(seq![url], min_interval_ms), script).outcome == Some(
            Err::<String, BundleError>(
                BundleError::EndpointsExhausted(failure_of(url, script[2])),
            ),
        ),
{
    let d = first_attempt(seq![url], min_interval_ms);
    lemma_transient_failures_exhaust(d, script);
    let requests = run(d, script).requests;
    assert(requests[0] == 0 && requests[1] == 0 && requests[2] == 0);
    assert(requests =~= seq![0nat, 0nat, 0nat]);
}

/// Whatever the exchanges, a call asks only endpoints of the registry, in
/// the order of the registry, never goes back to an earlier one, and sends no
/// more than three requests to any.
pub proof fn lemma_requests_follow_registry(d: DispatchView, script: Seq<Exchange>)
    requires
        d.wf(),
    ensures
        run(d, script).requests.len() <= d.requests_left(),
        forall|k: int|
            0 <= k < run(d, script).requests.len() ==> d.endpoint <= #[trigger] run(
                d,
                script,
            ).requests[k] < d.urls.len(),
        forall|k: int|
            0 <= k < run(d, script).requests.len() && d.attempt + k >= MAX_ATTEMPTS
                ==> d.endpoint < #[trigger] run(d, script).requests[k],
        forall|j: int, k: int|
            0 <= j <= k < run(d, script).requests.len() ==> run(d, script).requests[j] <= run(
                d,
                script,
            ).requests[k],
        forall|j: int, k: int|
            0 <= j && j + MAX_ATTEMPTS <= k < run(d, script).requests.len() ==> run(
                d,
                script,
            ).requests[j] < run(d, script).requests[k],
    decreases script.len(),
{
    if script.len() > 0 {
        let rest = script.drop_first();
        let requests = run(d, script).requests;
        match step(d, script[0]) {
            StepView::Done(_) => {},
            StepView::Backoff { next, .. } => {
                lemma_requests_follow_registry(next, rest);
                let tail = run(next, rest).requests;
                assert(requests == seq![d.endpoint] + tail);
                assert forall|k: int| 0 < k < requests.len() implies requests[k] == tail[k - 1] by {}
            },
            StepView::NextEndpoint { next } => {
                lemma_requests_follow_registry(next, rest);
                let tail = run(next, rest).requests;
                assert(requests == seq![d.endpoint] + tail);
                assert forall|k: int| 0 < k < requests.len() implies requests[k] == tail[k - 1] by {}
            },
        }
    }
}

/// The exponential pause for the first attempts is one, two and four
/// seconds, and eight from then on.
pub proof fn lemma_exponential_backoff_values(attempt: nat)
    ensures
        exponential_backoff(attempt) == if attempt == 0 {
            1nat
        } else if attempt == 1 {
            2nat
        } else if attempt == 2 {
            4nat
        } else {
            8nat
        },
{
    lemma2_to64();
    if attempt > 3 {
        lemma_pow2_strictly_increases(3, attempt);
    }
}

/// The pause before the next attempt, in seconds.
pub fn backoff(attempt: u8, hint: Option<u64>) -> (seconds: u64)
    ensures
        seconds == backoff_seconds(attempt as nat, hint),
        seconds <= MAX_BACKOFF_SECS,
{
    proof {
        lemma_exponential_backoff_values(attempt as nat);
    }
    match hint {
        Some(seconds) => if seconds <= MAX_BACKOFF_SECS {
            seconds
        } else {
            MAX_BACKOFF_SECS
        },
        None => if attempt == 0 {
            1
        } else if attempt == 1 {
            2
        } else if attempt == 2 {
            4
        } else {
            MAX_BACKOFF_SECS
        },
    }
}

/// The number of seconds that a `Retry-After` header asks for.
pub fn retry_after_seconds(retry_after: &Option<String>) -> (hint: Option<u64>)
    ensures
        hint == hinted_seconds(*retry_after),
{
    match retry_after {
        Some(text) => parse_u64(text.as_str()),
        None => None,
    }
}

impl Dispatch {
    #[verifier::type_invariant]
    spec fn well_formed(self) -> bool {
        self.endpoint < self.urls@.len() && self.attempt < MAX_ATTEMPTS
    }

    /// Begins a call over the registry `urls`, each request of which keeps
    /// `min_interval_ms` from the request before it: the first attempt is at
    /// the first endpoint. An empty registry is a configuration error.
    pub fn start(urls: Vec<String>, min_interval_ms: u64) -> (r: Result<Dispatch, BundleError>)
        ensures
            urls@.len() == 0 ==> r == Err::<Dispatch, BundleError>(
                BundleError::ConfigurationError(ConfigurationIssue::NoEndpoints),
            ),
            urls@.len() > 0 ==> r is Ok && r->Ok_0@ == first_attempt(urls@, min_interval_ms),
    {
        if urls.len() == 0 {
            return Err(BundleError::ConfigurationError(ConfigurationIssue::NoEndpoints));
        }
        Ok(Dispatch { urls, endpoint: 0, attempt: 0, min_interval_ms })
    }

    /// The place in the registry of the endpoint to ask. Every call in
    /// progress names an endpoint of its registry and an attempt that the
    /// endpoint still has.
    pub fn endpoint_index(&self) -> (index: usize)
        ensures
            self@.wf(),
            index == self@.endpoint,
    {
        proof {
            use_type_invariant(self);
        }
        self.endpoint
    }

    /// The index of the attempt to make at this endpoint, from zero.
    pub fn attempt_index(&self) -> (index: u8)
        ensures
            index == self@.attempt,
    {
        self.attempt
    }

    /// The least interval before each request of this call.
    pub fn min_interval_ms(&self) -> (ms: u64)
        ensures
            ms == self@.min_interval_ms,
    {
        self.min_interval_ms
    }

    /// How many milliseconds the attempt has to wait at `now_ms` before it may
    /// pass the pacer.
    pub fn throttle(&self, pacer: &PacingGate, now_ms: u64) -> (wait_ms: u64)
        ensures
            wait_ms == throttle_wait(pacer.last(), now_ms, self@.min_interval_ms),
    {
        pacer.throttle(now_ms, self.min_interval_ms)
    }

    /// Lets the attempt pass the pacer at `now_ms`, the time after the wait:
    /// the pacer notes the time, and the request may be sent.
    pub fn pace(self, pacer: &mut PacingGate, now_ms: u64) -> (attempt: Attempt)
        ensures
            attempt@ == self@,
            final(pacer).last() == recorded(old(pacer).last(), now_ms, self@.min_interval_ms),
    {
        pacer.record(now_ms, self.min_interval_ms);
        Attempt { call: self }
    }

    /// The attempt as it is where the interval is zero: it need not pass the
    /// pacer, and the pacer is neither read nor written. With a positive
    /// interval the call comes back unchanged.
    pub fn unpaced(self) -> (r: Result<Attempt, Dispatch>)
        ensures
            self@.min_interval_ms == 0 ==> r is Ok && r->Ok_0@ == self@,
            self@.min_interval_ms != 0 ==> r == Err::<Attempt, Dispatch>(self),
    {
        if self.min_interval_ms == 0 {
            Ok(Attempt { call: self })
        } else {
            Err(self)
        }
    }

    fn retry(self) -> (next: Dispatch)
        requires
            self@.attempt + 1 < MAX_ATTEMPTS,
        ensures
            next@ == self@.retry(),
    {
        proof {
            use_type_invariant(&self);
        }
        Dispatch {
            urls: self.urls,
            endpoint: self.endpoint,
            attempt: self.attempt + 1,
            min_interval_ms: self.min_interval_ms,
        }
    }

    fn after_endpoint_failure(self, failure: HttpFailure) -> (r: Step)
        ensures
            r@ == after_endpoint_failure(self@, failure),
    {
        proof {
            use_type_invariant(&self);
        }
        let endpoints: usize = self.urls.len();
        if self.endpoint + 1 < endpoints {
            Step::NextEndpoint {
                next: Dispatch {
                    urls: self.urls,
                    endpoint: self.endpoint + 1,
                    attempt: 0,
                    min_interval_ms: self.min_interval_ms,
                },
            }
        } else {
            Step::Done(Err(BundleError::EndpointsExhausted(failure)))
        }
    }

    fn advance(self, exchange: Exchange) -> (r: Step)
        ensures
            r@ == step(self@, exchange),
    {
        proof {
            use_type_invariant(&self);
        }
        let attempts_left = self.attempt + 1 < MAX_ATTEMPTS;
        match exchange {
            Exchange::SendFailed { detail } => {
                if attempts_left {
                    let seconds = backoff(self.attempt, None);
                    Step::Backoff { seconds, next: self.retry() }
                } else {
                    let url = self.urls[self.endpoint].clone();
                    self.after_endpoint_failure(
                        HttpFailure {
                            kind: FailureKind::TransportError,
                            status: None,
                            url,
                            text: detail,
                        },
                    )
                }
            },
            Exchange::Response { status, retry_after, body } => {
                let retryable = status == 429 || (500 <= status && status <= 599);
                if retryable && attempts_left {
                    let seconds = backoff(self.attempt, retry_after_seconds(&retry_after));
                    Step::Backoff { seconds, next: self.retry() }
                } else if 200 <= status && status <= 299 {
                    Step::Done(Ok(body))
                } else {
                    let url = self.urls[self.endpoint].clone();
                    let kind = if status == 429 {
                        FailureKind::RateLimited
                    } else if 500 <= status && status <= 599 {
                        FailureKind::ServerError
                    } else if 400 <= status && status <= 499 {
                        FailureKind::ClientError
                    } else {
                        FailureKind::UnexpectedStatus
                    };
                    let failure = HttpFailure { kind, status: Some(status), url, text: body };
                    if 400 <= status && status <= 499 && status != 429 {
                        Step::Done(Err(BundleError::ClientError(failure)))
                    } else {
                        self.after_endpoint_failure(failure)
                    }
                }
            },
        }
    }
}

impl Attempt {
    /// The address that the request goes to.
    pub fn url(&self) -> (url: &String)
        ensures
            self@.wf(),
            *url == self@.url(),
    {
        proof {
            use_type_invariant(&self.call);
        }
        &self.call.urls[self.call.endpoint]
    }

    /// Whether the body of a response with the given status is looked at. A
    /// response that is followed by another attempt may be reported with any
    /// body, an empty one for instance, and need not be read to its end.
    pub fn reads_body(&self, status: u16) -> (r: bool)
        ensures
            r == body_matters(self@, status),
    {
        proof {
            use_type_invariant(&self.call);
        }
        let retryable = status == 429 || (500 <= status && status <= 599);
        !(retryable && self.call.attempt + 1 < MAX_ATTEMPTS)
    }

    /// Takes the report of the request and says what follows.
    pub fn advance(self, exchange: Exchange) -> (r: Step)
        ensures
            r@ == step(self@, exchange),
    {
        self.call.advance(exchange)
    }
}

} // verus!
