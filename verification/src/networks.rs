//! The client that sends events to the backend: its settings, its retry
//! policy and how it reads the backend's answers.

use vstd::prelude::*;
use vstd::string::*;

use crate::errors::AgentError;
use crate::text::decimal;

verus! {

/// The HTTP client of `reqwest`.
#[verifier::external_type_specification]
#[verifier::external_body]
pub struct ExClient(reqwest::Client);

/// Overall time limit of one request, in seconds.
pub const REQUEST_TIMEOUT_SECS: u64 = 10;

/// Time limit for connecting to the backend, in seconds.
pub const CONNECT_TIMEOUT_SECS: u64 = 5;

/// How many attempts a new client makes to deliver one event.
pub const DEFAULT_RETRY_COUNT: u32 = 3;

/// Calls `reqwest::Client::builder()` with the given request and connect
/// time limits and builds the client. Trusted: nothing is claimed of whether
/// the build succeeds or of the client itself, which `reqwest::Client` keeps
/// opaque; the ghost half of the result is the pair of limits, in seconds,
/// that were handed to `timeout` and `connect_timeout`.
#[verifier::external_body]
fn build_client(timeout_secs: u64, connect_timeout_secs: u64) -> (r: (
    Result<reqwest::Client, reqwest::Error>,
    Ghost<(u64, u64)>,
))
    ensures
        r.1@ == (timeout_secs, connect_timeout_secs),
{
    let built = reqwest::Client::builder()
        .timeout(std::time::Duration::from_secs(timeout_secs))
        .connect_timeout(std::time::Duration::from_secs(connect_timeout_secs))
        .build();
    (built, Ghost((timeout_secs, connect_timeout_secs)))
}

/// Calls `reqwest::Client::new()`. Trusted: nothing is claimed of the client.
/// Its documentation says it panics when the machine's TLS backend or resolver
/// configuration cannot be loaded; nothing here rules that out.
#[verifier::external_body]
fn default_client() -> (c: reqwest::Client) {
    reqwest::Client::new()
}

/// Calls `Clone::clone` on a `reqwest::Client`. Trusted: the copy is the same
/// client: `Client` is a derived-`Clone` handle on one shared `Arc`, so the
/// copy refers to the same connection pool and settings, the way vstd treats
/// `Arc::clone`.
#[verifier::external_body]
fn clone_client(c: &reqwest::Client) -> (r: reqwest::Client)
    ensures
        r == *c,
{
    c.clone()
}

/// What `reqwest::StatusCode` (that is, `http::StatusCode`) shows for a code:
/// the number and its canonical reason phrase.
pub uninterp spec fn status_line(code: u16) -> Seq<char>;

/// Calls `StatusCode::from_u16` and `StatusCode::is_success`. Trusted: true
/// exactly for the codes 200 to 299, as `http`'s source shows.
#[verifier::external_body]
fn status_is_success(code: u16) -> (b: bool)
    requires
        100 <= code <= 999,
    ensures
        b == (200 <= code < 300),
{
    match reqwest::StatusCode::from_u16(code) {
        Ok(s) => s.is_success(),
        Err(_) => false,
    }
}

/// Calls `StatusCode::from_u16` and `StatusCode::is_client_error`. Trusted:
/// true exactly for the codes 400 to 499, as `http`'s source shows.
#[verifier::external_body]
fn status_is_client_error(code: u16) -> (b: bool)
    requires
        100 <= code <= 999,
    ensures
        b == (400 <= code < 500),
{
    match reqwest::StatusCode::from_u16(code) {
        Ok(s) => s.is_client_error(),
        Err(_) => false,
    }
}

/// Calls `StatusCode::from_u16` and `StatusCode::is_server_error`. Trusted:
/// true exactly for the codes 500 to 599, as `http`'s source shows.
#[verifier::external_body]
fn status_is_server_error(code: u16) -> (b: bool)
    requires
        100 <= code <= 999,
    ensures
        b == (500 <= code < 600),
{
    match reqwest::StatusCode::from_u16(code) {
        Ok(s) => s.is_server_error(),
        Err(_) => false,
    }
}

/// Calls `StatusCode::from_u16` and formats the status with `Display`.
/// Trusted: the text is `status_line(code)`, and, as `http`'s `Display` impl
/// shows, it starts with the code in decimal and a space. The reason phrase
/// that follows is left to the name.
#[verifier::external_body]
fn status_text(code: u16) -> (s: String)
    requires
        100 <= code <= 999,
    ensures
        s@ == status_line(code),
        s@.len() > decimal(code as nat).len(),
        s@.take(decimal(code as nat).len() as int + 1) == decimal(code as nat).push(' '),
{
    match reqwest::StatusCode::from_u16(code) {
        Ok(s) => s.to_string(),
        Err(_) => String::new(),
    }
}

/// The value of `r` when it is `Ok`.
pub open spec fn ok_value<T, E>(r: Result<T, E>) -> Option<T> {
    match r {
        Ok(v) => Some(v),
        Err(_) => None,
    }
}

/// The four kinds of answer the backend can give.
#[derive(Debug, Clone, Copy, PartialEq, Eq, Structural)]
pub enum StatusClass {
    /// 2xx: the event was accepted.
    Success,
    /// 4xx: the backend refused the request.
    ClientError,
    /// 5xx: the backend failed.
    ServerError,
    /// Any other status.
    Other,
}

/// The class of an HTTP status code.
pub open spec fn status_class_of(code: u16) -> StatusClass {
    if 200 <= code < 300 {
        StatusClass::Success
    } else if 400 <= code < 500 {
        StatusClass::ClientError
    } else if 500 <= code < 600 {
        StatusClass::ServerError
    } else {
        StatusClass::Other
    }
}

/// Whether the backend's answer body is part of the error for this class.
pub open spec fn class_reports_body(class: StatusClass) -> bool {
    class == StatusClass::ClientError || class == StatusClass::ServerError
}

/// The message of the error for an answer of class `class`, status text
/// `status` and body `body`; `None` for a success.
pub open spec fn backend_error_message(class: StatusClass, status: Seq<char>, body: Seq<char>) -> Option<Seq<char>> {
    match class {
        StatusClass::Success => None,
        StatusClass::ClientError => Some("Client error: "@ + status + " - "@ + body),
        StatusClass::ServerError => Some("Server error: "@ + status + " - "@ + body),
        StatusClass::Other => Some("Unexpected status: "@ + status),
    }
}

/// Only a 2xx answer delivers an event: every other status is an error,
/// whatever the body says. The error for a 4xx or 5xx answer ends with the
/// body, and the one for any other status does not depend on the body.
pub proof fn lemma_only_success_delivers(code: u16, status: Seq<char>, body: Seq<char>, other: Seq<char>)
    ensures
        backend_error_message(status_class_of(code), status, body) is None <==> 200 <= code < 300,
        status_class_of(code) == StatusClass::Success <==> 200 <= code < 300,
        (400 <= code < 600) ==> (backend_error_message(status_class_of(code), status, body) matches Some(m)
            && m.len() >= body.len() && m.subrange(m.len() - body.len(), m.len() as int) == body),
        !(200 <= code < 300) && !(400 <= code < 600) ==> backend_error_message(status_class_of(code), status, body)
            == backend_error_message(status_class_of(code), status, other),
{
    if 400 <= code < 600 {
        let m = backend_error_message(status_class_of(code), status, body).unwrap();
        assert(m.subrange(m.len() - body.len(), m.len() as int) =~= body);
    }
}

/// The class of the HTTP status `code`.
pub fn classify_status(code: u16) -> (c: StatusClass)
    requires
        100 <= code <= 999,
    ensures
        c == status_class_of(code),
{
    if status_is_success(code) {
        StatusClass::Success
    } else if status_is_client_error(code) {
        StatusClass::ClientError
    } else if status_is_server_error(code) {
        StatusClass::ServerError
    } else {
        StatusClass::Other
    }
}

/// The result of delivering an event, given the class and text of the
/// backend's status and its body: `Ok` for a success, else a `BackendError`
/// whose message names the status and, for 4xx and 5xx, the body.
pub fn backend_result(class: StatusClass, status: &str, body: &str) -> (r: Result<(), AgentError>)
    ensures
        r is Ok <==> class == StatusClass::Success,
        match backend_error_message(class, status@, body@) {
            None => r is Ok,
            Some(m) => r matches Err(AgentError::BackendError(s)) && s@ == m,
        },
{
    match class {
        StatusClass::Success => Ok(()),
        StatusClass::ClientError => {
            let mut s = String::from_str("Client error: ");
            s.append(status);
            s.append(" - ");
            s.append(body);
            Err(AgentError::BackendError(s))
        },
        StatusClass::ServerError => {
            let mut s = String::from_str("Server error: ");
            s.append(status);
            s.append(" - ");
            s.append(body);
            Err(AgentError::BackendError(s))
        },
        StatusClass::Other => {
            let mut s = String::from_str("Unexpected status: ");
            s.append(status);
            Err(AgentError::BackendError(s))
        },
    }
}

/// The result of delivering an event whose request got the HTTP status
/// `code` and, where the status is a 4xx or 5xx, the answer body `body`.
pub fn response_outcome(code: u16, body: &str) -> (r: Result<(), AgentError>)
    requires
        100 <= code <= 999,
    ensures
        r is Ok <==> 200 <= code < 300,
        match backend_error_message(status_class_of(code), status_line(code), body@) {
            None => r is Ok,
            Some(m) => r matches Err(AgentError::BackendError(s)) && s@ == m,
        },
{
    let class = classify_status(code);
    let text = status_text(code);
    backend_result(class, text.as_str(), body)
}


/// The client that delivers events to the backend at `base_url`.
pub struct BackendClient {
    client: reqwest::Client,
    base_url: String,
    retry_count: u32,
    limits: Ghost<(u64, u64)>,
    built: Ghost<Option<reqwest::Client>>,
}

/// The next thing to do while delivering one event.
pub enum SendStep {
    /// Make delivery attempt number `attempt` (counting from 1).
    Attempt(u32),
    /// Wait `delay_ms` milliseconds, then make attempt `next_attempt`.
    Retry { next_attempt: u32, delay_ms: u64 },
    /// Delivery is over, with this result.
    Done(Result<(), AgentError>),
}

/// The shape of a `SendStep`, without the error it may carry.
#[derive(PartialEq, Eq, Structural)]
pub enum StepKind {
    /// Make this attempt.
    Attempt(u32),
    /// Wait this long, then make this attempt.
    Retry(u32, u64),
    /// Stop, having delivered the event (`true`) or not.
    Finished(bool),
}

/// The shape of `step`.
pub open spec fn step_kind(step: SendStep) -> StepKind {
    match step {
        SendStep::Attempt(a) => StepKind::Attempt(a),
        SendStep::Retry { next_attempt, delay_ms } => StepKind::Retry(next_attempt, delay_ms),
        SendStep::Done(r) => StepKind::Finished(r is Ok),
    }
}

/// The first step of delivering an event with `retry_count` attempts allowed.
pub open spec fn first_step_kind(retry_count: u32) -> StepKind {
    if retry_count == 0 {
        StepKind::Finished(false)
    } else {
        StepKind::Attempt(1)
    }
}

/// The step after attempt `attempt`, which succeeded when `ok`: a success
/// ends delivery; a failure of the last allowed attempt ends it too; any
/// other failure waits `attempt * 100` milliseconds and tries again.
pub open spec fn step_after_kind(retry_count: u32, attempt: u32, ok: bool) -> StepKind {
    if ok {
        StepKind::Finished(true)
    } else if attempt >= retry_count {
        StepKind::Finished(false)
    } else {
        StepKind::Retry((attempt + 1) as u32, (attempt * 100) as u64)
    }
}

/// The number of attempts made and whether the event was delivered, when
/// delivery with `retry_count` attempts allowed reaches attempt `attempt` and
/// attempt `i` (counting from 1) succeeds exactly when `outcomes[i - 1]`,
/// following `step_after_kind`.
pub open spec fn delivery_from(retry_count: u32, outcomes: Seq<bool>, attempt: u32) -> (nat, bool)
    decreases retry_count - attempt,
{
    if 1 <= attempt <= retry_count && attempt <= outcomes.len() {
        match step_after_kind(retry_count, attempt, outcomes[attempt - 1]) {
            StepKind::Finished(ok) => (attempt as nat, ok),
            StepKind::Retry(next, _) => if attempt < next <= retry_count {
                delivery_from(retry_count, outcomes, next)
            } else {
                (attempt as nat, false)
            },
            StepKind::Attempt(_) => (attempt as nat, false),
        }
    } else {
        (0, false)
    }
}

/// The number of attempts made and whether the event was delivered, for a
/// delivery with `retry_count` attempts allowed, starting at
/// `first_step_kind`, in which attempt `i` succeeds exactly when `outcomes[i - 1]`.
pub open spec fn delivery(retry_count: u32, outcomes: Seq<bool>) -> (nat, bool) {
    match first_step_kind(retry_count) {
        StepKind::Finished(ok) => (0, ok),
        StepKind::Attempt(a) => delivery_from(retry_count, outcomes, a),
        StepKind::Retry(_, _) => (0, false),
    }
}

proof fn lemma_delivery_from(retry_count: u32, outcomes: Seq<bool>, attempt: u32)
    requires
        outcomes.len() >= retry_count,
        1 <= attempt <= retry_count,
    ensures
        ({
            let (n, ok) = delivery_from(retry_count, outcomes, attempt);
            &&& attempt <= n <= retry_count
            &&& ok <==> exists|i: int| attempt - 1 <= i < retry_count && #[trigger] outcomes[i]
            &&& ok ==> outcomes[n - 1] && forall|j: int| attempt - 1 <= j < n - 1 ==> !#[trigger] outcomes[j]
            &&& !ok ==> n == retry_count
        }),
    decreases retry_count - attempt,
{
    if outcomes[attempt - 1] {
    } else if attempt >= retry_count {
        assert forall|i: int| attempt - 1 <= i < retry_count implies !#[trigger] outcomes[i] by {
            assert(i == attempt - 1);
        }
    } else {
        lemma_delivery_from(retry_count, outcomes, (attempt + 1) as u32);
        let (n, ok) = delivery_from(retry_count, outcomes, (attempt + 1) as u32);
        assert(delivery_from(retry_count, outcomes, attempt) == (n, ok));
        if ok {
            assert forall|j: int| attempt - 1 <= j < n - 1 implies !#[trigger] outcomes[j] by {
                if j > attempt - 1 {
                    assert(attempt + 1 - 1 <= j < n - 1);
                }
            }
        } else {
            assert forall|i: int| attempt - 1 <= i < retry_count implies !#[trigger] outcomes[i] by {
                if i > attempt - 1 {
                    assert(!(exists|k: int| attempt + 1 - 1 <= k < retry_count && #[trigger] outcomes[k]));
                }
            }
        }
    }
}

/// Delivering an event with `retry_count` attempts allowed, where attempt
/// `i` (counting from 1) succeeds exactly when `outcomes[i - 1]`: at most
/// `retry_count` attempts are made; the event is delivered exactly when one
/// of the first `retry_count` attempts succeeds, and then the last attempt
/// made is the first that succeeded; an undelivered event has used up every
/// allowed attempt.
pub proof fn lemma_delivery_succeeds_iff_an_attempt_succeeds(retry_count: u32, outcomes: Seq<bool>)
    requires
        outcomes.len() >= retry_count,
    ensures
        ({
            let (n, ok) = delivery(retry_count, outcomes);
            &&& n <= retry_count
            &&& ok <==> exists|i: int| 0 <= i < retry_count && #[trigger] outcomes[i]
            &&& ok ==> n >= 1 && outcomes[n - 1] && forall|j: int| 0 <= j < n - 1 ==> !#[trigger] outcomes[j]
            &&& !ok ==> n == retry_count
        }),
{
    if retry_count > 0 {
        lemma_delivery_from(retry_count, outcomes, 1);
    }
}

impl BackendClient {
    /// The backend's base URL.
    pub closed spec fn spec_base_url(&self) -> Seq<char> {
        self.base_url@
    }

    /// How many attempts are made to deliver one event.
    pub closed spec fn spec_retry_count(&self) -> u32 {
        self.retry_count
    }

    /// The HTTP client this backend client makes its requests with.
    pub closed spec fn spec_client(&self) -> reqwest::Client {
        self.client
    }

    /// The request and connect time limits, in seconds, that were handed to
    /// the HTTP client builder when this client was made.
    pub closed spec fn spec_requested_limits(&self) -> (u64, u64) {
        self.limits@
    }

    /// The client that the HTTP client builder returned when this client was
    /// made, or `None` when the build failed.
    pub closed spec fn spec_built_client(&self) -> Option<reqwest::Client> {
        self.built@
    }

    /// A client for the backend at `base_url` that makes three attempts per
    /// event, with a 10 s request and a 5 s connect time limit; when such a
    /// client cannot be built, a client with `reqwest`'s defaults is used.
    pub fn new(base_url: String) -> (c: Self)
        ensures
            c.spec_base_url() == base_url@,
            c.spec_retry_count() == DEFAULT_RETRY_COUNT,
            c.spec_requested_limits() == (REQUEST_TIMEOUT_SECS, CONNECT_TIMEOUT_SECS),
            c.spec_built_client() matches Some(b) ==> c.spec_client() == b,
    {
        let (built, limits) = build_client(REQUEST_TIMEOUT_SECS, CONNECT_TIMEOUT_SECS);
        let ghost built_client = ok_value(built);
        let client = match built {
            Ok(c) => c,
            Err(_) => default_client(),
        };
        BackendClient {
            client,
            base_url,
            retry_count: DEFAULT_RETRY_COUNT,
            limits,
            built: Ghost(built_client),
        }
    }

    /// The same client, making `retry_count` attempts per event.
    pub fn with_retry(self, retry_count: u32) -> (c: Self)
        ensures
            c.spec_base_url() == self.spec_base_url(),
            c.spec_retry_count() == retry_count,
            c.spec_client() == self.spec_client(),
            c.spec_requested_limits() == self.spec_requested_limits(),
            c.spec_built_client() == self.spec_built_client(),
    {
        let mut c = self;
        c.retry_count = retry_count;
        c
    }

    /// The HTTP client requests are made with.
    pub fn client(&self) -> (c: &reqwest::Client)
        ensures
            *c == self.spec_client(),
    {
        &self.client
    }

    /// The backend's base URL.
    pub fn base_url(&self) -> (s: &str)
        ensures
            s@ == self.spec_base_url(),
    {
        self.base_url.as_str()
    }

    /// How many attempts are made to deliver one event.
    pub fn retry_count(&self) -> (n: u32)
        ensures
            n == self.spec_retry_count(),
    {
        self.retry_count
    }

    /// Where events are posted: the base URL followed by `/api/events`.
    pub fn events_url(&self) -> (s: String)
        ensures
            s@ == self.spec_base_url() + "/api/events"@,
    {
        let mut s = self.base_url.clone();
        s.append("/api/events");
        s
    }

    /// Where the backend's health is asked: the base URL followed by `/health`.
    pub fn health_url(&self) -> (s: String)
        ensures
            s@ == self.spec_base_url() + "/health"@,
    {
        let mut s = self.base_url.clone();
        s.append("/health");
        s
    }

    /// The first step of delivering an event: attempt 1, or, when no attempt
    /// is allowed, the end with the `BackendError` "Max retries exceeded".
    pub fn first_send_step(&self) -> (step: SendStep)
        ensures
            step_kind(step) == first_step_kind(self.spec_retry_count()),
            step matches SendStep::Done(r) ==> (r matches Err(AgentError::BackendError(m))
                && m@ == "Max retries exceeded"@),
    {
        if self.retry_count == 0 {
            SendStep::Done(Err(AgentError::BackendError(String::from_str("Max retries exceeded"))))
        } else {
            SendStep::Attempt(1)
        }
    }

    /// The step after attempt `attempt` ended with `outcome`: the end with
    /// `Ok` on success, the end with the attempt's own error after the last
    /// allowed attempt, else a wait of `attempt * 100` ms and the next attempt.
    pub fn after_attempt(&self, attempt: u32, outcome: Result<(), AgentError>) -> (step: SendStep)
        requires
            1 <= attempt <= self.spec_retry_count(),
        ensures
            step_kind(step) == step_after_kind(self.spec_retry_count(), attempt, outcome is Ok),
            step matches SendStep::Done(r) ==> r == outcome,
    {
        match outcome {
            Ok(()) => SendStep::Done(outcome),
            Err(e) => {
                if attempt == self.retry_count {
                    SendStep::Done(Err(e))
                } else {
                    SendStep::Retry { next_attempt: attempt + 1, delay_ms: attempt as u64 * 100 }
                }
            },
        }
    }
}

impl Clone for BackendClient {
    /// A client with the same settings, sharing the HTTP connection pool.
    fn clone(&self) -> (c: Self)
        ensures
            c.spec_base_url() == self.spec_base_url(),
            c.spec_retry_count() == self.spec_retry_count(),
            c.spec_client() == self.spec_client(),
            c.spec_requested_limits() == self.spec_requested_limits(),
            c.spec_built_client() == self.spec_built_client(),
    {
        BackendClient {
            client: clone_client(&self.client),
            base_url: self.base_url.clone(),
            retry_count: self.retry_count,
            limits: Ghost(self.limits@),
            built: Ghost(self.built@),
        }
    }
}

} // verus!
