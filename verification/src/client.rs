//! The request-execution pipeline.
//!
//! Every API call of this library runs through the same sequence: obtain a
//! bearer token for the call's scopes, send the HTTP request, and decode the
//! response, retrying when the caller's delegate asks for it. The pipeline is
//! modelled here as a state machine over plain data: [`prepare`] turns a
//! [`CallSpec`] into a [`Descriptor`] (rejecting parameter clashes before any
//! network work), and [`step`] consumes one [`Event`] from the outside world,
//! moving the machine forward and emitting [`Signal`]s that tell the driver
//! what to do next. [`execute`] folds a whole sequence of events. The machine
//! is deterministic: every executable function is pinned to its spec-level
//! model, so the behaviour of a call is a mathematical function of the call
//! description and of what the collaborators answered.
//!
//! The pipeline itself enforces no retry budget: every retry is one the
//! delegate explicitly asked for, and a delegate that always answers with a
//! delay keeps the call in flight forever. The caller owns that budget.

use vstd::prelude::*;
use vstd::string::StringExecFns;
use vstd::utf8::encode_utf8;

verus! {

/// The HTTP method of a call. Only these two are used by this service.
#[derive(Clone, Copy, Debug, PartialEq, Eq, Structural)]
pub enum Method {
    Get,
    Post,
}

/// A retry decision returned by a delegate hook: abort the call, or sleep
/// for the given number of milliseconds and try again.
#[derive(Clone, Copy, Debug, PartialEq, Eq, Structural)]
pub enum Retry {
    Abort,
    After(u64),
}

/// A buffered HTTP response: the status code and the full body, read to the
/// end before the pipeline looks at it.
#[derive(Clone, Debug, PartialEq)]
pub struct RawResponse {
    pub status: u16,
    pub body: String,
}

/// A response body that is known to parse as a JSON value. The pipeline
/// only ever constructs one after checking the text with the JSON parser,
/// so `json_wellformed(text@)` holds of every value it hands out.
#[derive(Clone, Debug, PartialEq)]
pub struct JsonBody {
    pub text: String,
}

/// A terminal failure of one `execute` invocation.
#[derive(Clone, Debug, PartialEq)]
pub enum Error {
    /// A caller-supplied parameter collides with a reserved one; detected
    /// before any network work.
    FieldClash(String),
    /// The token provider failed and the delegate supplied no substitute.
    MissingToken(String),
    /// A transport-level failure that the delegate did not resolve by retry.
    HttpError(String),
    /// A non-success HTTP status whose body parsed as a JSON value.
    BadRequest(JsonBody),
    /// A non-success HTTP status whose body did not parse as JSON.
    Failure(RawResponse),
    /// A success status whose body did not match the expected schema:
    /// carries the body and the decoder's message.
    JsonDecodeError(String, String),
}

/// Whether the status code lies in the HTTP success class.
pub open spec fn spec_is_success(status: u16) -> bool {
    200 <= status < 300
}

/// Whether a string parses as a JSON value. The pipeline decides this by
/// calling the JSON parser; the name stands for that parser's verdict.
pub uninterp spec fn json_wellformed(s: Seq<char>) -> bool;

/// Relies on `serde_json::from_str::<serde_json::Value>`: whether a string
/// is well-formed JSON is a function of the string alone.
#[verifier::external_body]
fn json_body_parses(s: &str) -> (r: bool)
    ensures
        r == json_wellformed(s@),
{
    serde_json::from_str::<serde_json::Value>(s).is_ok()
}

/// The URL that `url::Url::parse_with_params` builds from a base URL and a
/// list of query pairs, if the base parses at all. The result is a function
/// of the inputs alone.
pub uninterp spec fn encoded_url(
    base: Seq<char>,
    params: Seq<(Seq<char>, Seq<char>)>,
) -> Option<Seq<char>>;

/// The views of a list of query-parameter pairs.
pub open spec fn param_views(params: Seq<(String, String)>) -> Seq<(Seq<char>, Seq<char>)> {
    params.map_values(|p: (String, String)| (p.0@, p.1@))
}

/// Relies on `url::Url::parse_with_params`: parses the base URL and appends
/// the pairs to its query string, percent-encoded; `None` when the base URL
/// does not parse.
#[verifier::external_body]
fn url_with_params(base: &str, params: &Vec<(String, String)>) -> (r: Option<String>)
    ensures
        match r {
            Some(u) => encoded_url(base@, param_views(params@)) == Some(u@),
            None => encoded_url(base@, param_views(params@)) is None,
        },
{
    match url::Url::parse_with_params(base, params.iter().map(|p| (&p.0, &p.1))) {
        Ok(u) => Some(u.as_str().to_owned()),
        Err(_) => None,
    }
}

/// The fully-assembled description of one API invocation: everything the
/// pipeline needs once execution begins. Immutable from then on.
#[derive(Clone, Debug, PartialEq)]
pub struct Descriptor {
    /// The method identifier reported to the delegate, such as
    /// `testing.projects.testMatrices.create`.
    pub call_id: String,
    pub method: Method,
    /// The final request URL, path parameters substituted and query
    /// parameters appended.
    pub url: String,
    /// The serialized JSON request body, absent for bodyless calls.
    pub body: Option<String>,
    /// The OAuth2 scopes for which a token is requested; never empty.
    pub scopes: Vec<String>,
    /// The value of the `user-agent` header.
    pub user_agent: String,
}

/// The wire request handed to the transport. The driver turns this into a
/// real HTTP request: the `authorization` header is `Bearer` followed by
/// `token`, and when `body` is present the `content-type` header is
/// `application/json` and `content-length` is `content_length`, the body's
/// length in bytes.
#[derive(Clone, Debug, PartialEq)]
pub struct HttpRequest {
    pub method: Method,
    pub url: String,
    pub user_agent: String,
    pub token: String,
    pub body: Option<String>,
    pub content_length: Option<u64>,
}

/// The byte length of a string, as the `content-length` header states it.
pub open spec fn spec_byte_len(s: String) -> u64 {
    (encode_utf8(s@).len() as usize) as u64
}

/// The request that the pipeline sends for a descriptor with a given
/// bearer token.
pub open spec fn spec_request(d: Descriptor, token: String) -> HttpRequest {
    HttpRequest {
        method: d.method,
        url: d.url,
        user_agent: d.user_agent,
        token: token,
        body: d.body,
        content_length: match d.body {
            Some(b) => Some(spec_byte_len(b)),
            None => None,
        },
    }
}

/// What the pipeline asks of the outside world, in order. `Ask*` signals
/// call for work (fetch a token, send the request, sleep, decode the body);
/// `Consult*` signals hand a failure to the delegate and await its answer;
/// `Begin`, `PreRequest` and `Finished` are the delegate's observability
/// hooks. `Finished` is emitted exactly once per invocation, with the
/// success flag.
#[derive(Clone, Debug, PartialEq)]
pub enum Signal {
    Begin { call_id: String, method: Method },
    AskToken,
    PreRequest,
    AskTransport { request: HttpRequest },
    ConsultTokenFailure { err: String },
    ConsultTransportFailure { err: String },
    ConsultHttpFailure { status: u16, body: String, body_is_json: bool },
    AskSleep { millis: u64 },
    AskDecode { body: String },
    ConsultDecodeFailure { body: String, err: String },
    Finished { success: bool },
}

/// What the outside world answers. Each variant resolves the signal of the
/// same pipeline stage: `Token` answers `AskToken`, `Substitute` answers
/// `ConsultTokenFailure`, `Transport` answers `AskTransport`, `Decision`
/// answers a `Consult*Failure`, `Slept` answers `AskSleep`, and `Decoded`
/// answers `AskDecode`.
#[derive(Debug, PartialEq)]
pub enum Event {
    /// The token provider's result: a bearer token, or its error message.
    Token(Result<String, String>),
    /// The delegate's substitute token after a provider failure, if any.
    Substitute(Option<String>),
    /// The transport's result: a buffered response, or a transport-level
    /// error message.
    Transport(Result<RawResponse, String>),
    /// The delegate's retry decision after a transport or HTTP failure.
    Decision(Retry),
    /// The requested sleep has elapsed.
    Slept,
    /// The decoder's verdict on a success body: decoded, or its error
    /// message.
    Decoded(Result<(), String>),
}

/// The state of one in-flight invocation, between two events.
#[derive(Debug, PartialEq)]
pub enum PipelineState {
    /// Awaiting the token provider's answer.
    NeedToken,
    /// The token provider failed; awaiting the delegate's substitute.
    TokenFailed { err: String },
    /// The request is out; awaiting the transport's answer.
    NeedResponse { token: String },
    /// The transport failed; awaiting the delegate's retry decision.
    TransportFailed { err: String },
    /// A non-success response arrived; awaiting the delegate's retry
    /// decision.
    NeedHttpDecision { status: u16, body: String, body_is_json: bool },
    /// The delegate asked for a retry; awaiting the end of the sleep.
    NeedSleep { millis: u64 },
    /// A success response arrived; awaiting the decoder's verdict.
    NeedDecode { status: u16, body: String },
    /// The invocation is over. Later events are ignored.
    Completed { result: Result<RawResponse, Error> },
}

/// The transition function of the pipeline, as a mathematical function:
/// from a state and one event to the next state and the signals emitted on
/// the way. An event that does not answer the current state leaves the
/// machine where it is, and a completed machine ignores every event.
pub open spec fn spec_step(d: Descriptor, s: PipelineState, e: Event) -> (PipelineState, Seq<
    Signal,
>) {
    match (s, e) {
        (PipelineState::NeedToken, Event::Token(Ok(token))) => (
            PipelineState::NeedResponse { token },
            seq![
                Signal::PreRequest,
                Signal::AskTransport { request: spec_request(d, token) },
            ],
        ),
        (PipelineState::NeedToken, Event::Token(Err(err))) => (
            PipelineState::TokenFailed { err },
            seq![Signal::ConsultTokenFailure { err }],
        ),
        (PipelineState::TokenFailed { err: _ }, Event::Substitute(Some(token))) => (
            PipelineState::NeedResponse { token },
            seq![
                Signal::PreRequest,
                Signal::AskTransport { request: spec_request(d, token) },
            ],
        ),
        (PipelineState::TokenFailed { err }, Event::Substitute(None)) => (
            PipelineState::Completed { result: Err(Error::MissingToken(err)) },
            seq![Signal::Finished { success: false }],
        ),
        (PipelineState::NeedResponse { token: _ }, Event::Transport(Ok(resp))) => if spec_is_success(
            resp.status,
        ) {
            (
                PipelineState::NeedDecode { status: resp.status, body: resp.body },
                seq![Signal::AskDecode { body: resp.body }],
            )
        } else {
            (
                PipelineState::NeedHttpDecision {
                    status: resp.status,
                    body: resp.body,
                    body_is_json: json_wellformed(resp.body@),
                },
                seq![
                    Signal::ConsultHttpFailure {
                        status: resp.status,
                        body: resp.body,
                        body_is_json: json_wellformed(resp.body@),
                    },
                ],
            )
        },
        (PipelineState::NeedResponse { token: _ }, Event::Transport(Err(err))) => (
            PipelineState::TransportFailed { err },
            seq![Signal::ConsultTransportFailure { err }],
        ),
        (PipelineState::TransportFailed { err: _ }, Event::Decision(Retry::After(millis))) => (
            PipelineState::NeedSleep { millis },
            seq![Signal::AskSleep { millis }],
        ),
        (PipelineState::TransportFailed { err }, Event::Decision(Retry::Abort)) => (
            PipelineState::Completed { result: Err(Error::HttpError(err)) },
            seq![Signal::Finished { success: false }],
        ),
        (
            PipelineState::NeedHttpDecision { status: _, body: _, body_is_json: _ },
            Event::Decision(Retry::After(millis)),
        ) => (PipelineState::NeedSleep { millis }, seq![Signal::AskSleep { millis }]),
        (
            PipelineState::NeedHttpDecision { status, body, body_is_json },
            Event::Decision(Retry::Abort),
        ) => (
            PipelineState::Completed {
                result: Err(
                    if body_is_json {
                        Error::BadRequest(JsonBody { text: body })
                    } else {
                        Error::Failure(RawResponse { status, body })
                    },
                ),
            },
            seq![Signal::Finished { success: false }],
        ),
        (PipelineState::NeedSleep { millis: _ }, Event::Slept) => (
            PipelineState::NeedToken,
            seq![Signal::AskToken],
        ),
        (PipelineState::NeedDecode { status, body }, Event::Decoded(Ok(()))) => (
            PipelineState::Completed { result: Ok(RawResponse { status, body }) },
            seq![Signal::Finished { success: true }],
        ),
        (PipelineState::NeedDecode { status: _, body }, Event::Decoded(Err(err))) => (
            PipelineState::Completed { result: Err(Error::JsonDecodeError(body, err)) },
            seq![
                Signal::ConsultDecodeFailure { body, err },
                Signal::Finished { success: false },
            ],
        ),
        (s0, _) => (s0, Seq::empty()),
    }
}

/// Clones an optional string, keeping its value.
fn clone_opt_string(s: &Option<String>) -> (r: Option<String>)
    ensures
        r == *s,
{
    match s {
        Some(x) => Some(x.clone()),
        None => None,
    }
}

/// Builds the wire request for a descriptor and a bearer token.
fn build_request(d: &Descriptor, token: String) -> (r: HttpRequest)
    ensures
        r == spec_request(*d, token),
{
    let body = clone_opt_string(&d.body);
    let content_length = match &d.body {
        Some(b) => Some(b.as_str().len() as u64),
        None => None,
    };
    HttpRequest {
        method: d.method,
        url: d.url.clone(),
        user_agent: d.user_agent.clone(),
        token,
        body,
        content_length,
    }
}

/// Advances the pipeline by one event and returns the new state together
/// with the signals emitted on the way. Behaves exactly as [`spec_step`].
pub fn step(d: &Descriptor, s: PipelineState, e: Event) -> (r: (PipelineState, Vec<Signal>))
    ensures
        (r.0, r.1@) == spec_step(*d, s, e),
{
    match (s, e) {
        (PipelineState::NeedToken, Event::Token(Ok(token))) => {
            let request = build_request(d, token.clone());
            (
                PipelineState::NeedResponse { token },
                vec![Signal::PreRequest, Signal::AskTransport { request }],
            )
        },
        (PipelineState::NeedToken, Event::Token(Err(err))) => {
            let sig_err = err.clone();
            (
                PipelineState::TokenFailed { err },
                vec![Signal::ConsultTokenFailure { err: sig_err }],
            )
        },
        (PipelineState::TokenFailed { err: _ }, Event::Substitute(Some(token))) => {
            let request = build_request(d, token.clone());
            (
                PipelineState::NeedResponse { token },
                vec![Signal::PreRequest, Signal::AskTransport { request }],
            )
        },
        (PipelineState::TokenFailed { err }, Event::Substitute(None)) => (
            PipelineState::Completed { result: Err(Error::MissingToken(err)) },
            vec![Signal::Finished { success: false }],
        ),
        (PipelineState::NeedResponse { token: _ }, Event::Transport(Ok(resp))) => {
            let RawResponse { status, body } = resp;
            if 200 <= status && status < 300 {
                let sig_body = body.clone();
                (
                    PipelineState::NeedDecode { status, body },
                    vec![Signal::AskDecode { body: sig_body }],
                )
            } else {
                let body_is_json = json_body_parses(body.as_str());
                let sig_body = body.clone();
                (
                    PipelineState::NeedHttpDecision { status, body, body_is_json },
                    vec![
                        Signal::ConsultHttpFailure { status, body: sig_body, body_is_json },
                    ],
                )
            }
        },
        (PipelineState::NeedResponse { token: _ }, Event::Transport(Err(err))) => {
            let sig_err = err.clone();
            (
                PipelineState::TransportFailed { err },
                vec![Signal::ConsultTransportFailure { err: sig_err }],
            )
        },
        (PipelineState::TransportFailed { err: _ }, Event::Decision(Retry::After(millis))) => (
            PipelineState::NeedSleep { millis },
            vec![Signal::AskSleep { millis }],
        ),
        (PipelineState::TransportFailed { err }, Event::Decision(Retry::Abort)) => (
            PipelineState::Completed { result: Err(Error::HttpError(err)) },
            vec![Signal::Finished { success: false }],
        ),
        (
            PipelineState::NeedHttpDecision { status: _, body: _, body_is_json: _ },
            Event::Decision(Retry::After(millis)),
        ) => (PipelineState::NeedSleep { millis }, vec![Signal::AskSleep { millis }]),
        (
            PipelineState::NeedHttpDecision { status, body, body_is_json },
            Event::Decision(Retry::Abort),
        ) => (
            PipelineState::Completed {
                result: Err(
                    if body_is_json {
                        Error::BadRequest(JsonBody { text: body })
                    } else {
                        Error::Failure(RawResponse { status, body })
                    },
                ),
            },
            vec![Signal::Finished { success: false }],
        ),
        (PipelineState::NeedSleep { millis: _ }, Event::Slept) => (
            PipelineState::NeedToken,
            vec![Signal::AskToken],
        ),
        (PipelineState::NeedDecode { status, body }, Event::Decoded(Ok(()))) => (
            PipelineState::Completed { result: Ok(RawResponse { status, body }) },
            vec![Signal::Finished { success: true }],
        ),
        (PipelineState::NeedDecode { status: _, body }, Event::Decoded(Err(err))) => {
            let sig_body = body.clone();
            let sig_err = err.clone();
            (
                PipelineState::Completed { result: Err(Error::JsonDecodeError(body, err)) },
                vec![
                    Signal::ConsultDecodeFailure { body: sig_body, err: sig_err },
                    Signal::Finished { success: false },
                ],
            )
        },
        (s0, _) => (s0, Vec::new()),
    }
}

/// Folds a sequence of events through [`spec_step`], starting from `s`:
/// the final state, and every signal emitted on the way, in order.
pub open spec fn spec_run(d: Descriptor, s: PipelineState, events: Seq<Event>) -> (PipelineState,
    Seq<Signal>,
)
    decreases events.len(),
{
    if events.len() == 0 {
        (s, Seq::empty())
    } else {
        let first = spec_step(d, s, events[0]);
        let rest = spec_run(d, first.0, events.drop_first());
        (rest.0, first.1 + rest.1)
    }
}

/// Running a concatenation of two scripts runs the first and then runs the
/// second from the state the first one reached.
pub proof fn lemma_run_app(d: Descriptor, s: PipelineState, a: Seq<Event>, b: Seq<Event>)
    ensures
        spec_run(d, s, a + b) == {
            let ra = spec_run(d, s, a);
            let rb = spec_run(d, ra.0, b);
            (rb.0, ra.1 + rb.1)
        },
    decreases a.len(),
{
    let ra = spec_run(d, s, a);
    let rb = spec_run(d, ra.0, b);
    if a.len() == 0 {
        assert(a + b =~= b);
        assert(ra.1 + rb.1 =~= rb.1);
    } else {
        let st = spec_step(d, s, a[0]);
        assert((a + b)[0] == a[0]);
        assert((a + b).drop_first() =~= a.drop_first() + b);
        lemma_run_app(d, st.0, a.drop_first(), b);
        let ra2 = spec_run(d, st.0, a.drop_first());
        let rb2 = spec_run(d, ra2.0, b);
        assert(st.1 + (ra2.1 + rb2.1) =~= (st.1 + ra2.1) + rb2.1);
    }
}

/// Running a single event is one step.
pub proof fn lemma_run_one(d: Descriptor, s: PipelineState, e: Event)
    ensures
        spec_run(d, s, seq![e]) == spec_step(d, s, e),
{
    let st = spec_step(d, s, e);
    assert(seq![e].drop_first() =~= Seq::<Event>::empty());
    assert(spec_run(d, st.0, Seq::<Event>::empty()) == (st.0, Seq::<Signal>::empty()));
    assert(st.1 + Seq::<Signal>::empty() =~= st.1);
}

/// A completed invocation ignores every further event and emits nothing.
pub proof fn lemma_completed_absorbs(
    d: Descriptor,
    result: Result<RawResponse, Error>,
    events: Seq<Event>,
)
    ensures
        spec_run(d, PipelineState::Completed { result }, events) == (
            PipelineState::Completed { result },
            Seq::<Signal>::empty(),
        ),
    decreases events.len(),
{
    if events.len() > 0 {
        let st = spec_step(d, PipelineState::Completed { result }, events[0]);
        lemma_completed_absorbs(d, result, events.drop_first());
        assert(st.1 + Seq::<Signal>::empty() =~= Seq::<Signal>::empty());
    }
}

/// Runs the pipeline from its initial state through a whole sequence of
/// events. Behaves exactly as [`spec_run`]; the driver that performs real
/// work instead feeds [`step`] one event at a time.
pub fn execute(d: &Descriptor, events: Vec<Event>) -> (r: (PipelineState, Vec<Signal>))
    ensures
        (r.0, r.1@) == spec_run(*d, PipelineState::NeedToken, events@),
{
    let ghost all_events = events@;
    let mut evs = events;
    let mut state = PipelineState::NeedToken;
    let mut signals: Vec<Signal> = Vec::new();
    while evs.len() > 0
        invariant
            spec_run(*d, PipelineState::NeedToken, all_events) == {
                let rest = spec_run(*d, state, evs@);
                (rest.0, signals@ + rest.1)
            },
        decreases evs.len(),
    {
        let ghost evs_before = evs@;
        let ghost state_before = state;
        let e = evs.remove(0);
        proof {
            assert(evs@ =~= evs_before.drop_first());
        }
        let (s2, mut sigs) = step(d, state, e);
        state = s2;
        proof {
            let st = spec_step(*d, state_before, evs_before[0]);
            let rest = spec_run(*d, state, evs@);
            assert(signals@ + (st.1 + rest.1) =~= (signals@ + st.1) + rest.1);
        }
        signals.append(&mut sigs);
    }
    proof {
        assert(signals@ + Seq::<Signal>::empty() =~= signals@);
    }
    (state, signals)
}

/// How many signals of a trace satisfy a predicate.
pub open spec fn count_matching(sigs: Seq<Signal>, pred: spec_fn(Signal) -> bool) -> nat
    decreases sigs.len(),
{
    if sigs.len() == 0 {
        0
    } else {
        (if pred(sigs[0]) {
            1nat
        } else {
            0nat
        }) + count_matching(sigs.drop_first(), pred)
    }
}

/// Counting distributes over concatenation of traces.
pub proof fn lemma_count_app(a: Seq<Signal>, b: Seq<Signal>, pred: spec_fn(Signal) -> bool)
    ensures
        count_matching(a + b, pred) == count_matching(a, pred) + count_matching(b, pred),
    decreases a.len(),
{
    if a.len() == 0 {
        assert(a + b =~= b);
    } else {
        assert((a + b)[0] == a[0]);
        assert((a + b).drop_first() =~= a.drop_first() + b);
        lemma_count_app(a.drop_first(), b, pred);
    }
}

/// The count over a one-signal trace.
pub proof fn lemma_count_one(x: Signal, pred: spec_fn(Signal) -> bool)
    ensures
        count_matching(seq![x], pred) == (if pred(x) {
            1nat
        } else {
            0nat
        }),
{
    assert(seq![x].drop_first() =~= Seq::<Signal>::empty());
    assert(count_matching(Seq::<Signal>::empty(), pred) == 0);
}

/// The count over a two-signal trace.
pub proof fn lemma_count_two(x: Signal, y: Signal, pred: spec_fn(Signal) -> bool)
    ensures
        count_matching(seq![x, y], pred) == (if pred(x) {
            1nat
        } else {
            0nat
        }) + (if pred(y) {
            1nat
        } else {
            0nat
        }),
{
    assert(seq![x, y].drop_first() =~= seq![y]);
    lemma_count_one(y, pred);
}

/// Recognizes the signal that requests a bearer token.
pub open spec fn ask_token_pred() -> spec_fn(Signal) -> bool {
    |s: Signal| s is AskToken
}

/// Recognizes the signal that hands a request to the transport.
pub open spec fn ask_transport_pred() -> spec_fn(Signal) -> bool {
    |s: Signal| s is AskTransport
}

/// Recognizes the signal that requests a sleep between retries.
pub open spec fn ask_sleep_pred() -> spec_fn(Signal) -> bool {
    |s: Signal| s is AskSleep
}

/// Recognizes the delegate's final notification.
pub open spec fn finished_pred() -> spec_fn(Signal) -> bool {
    |s: Signal| s is Finished
}

/// One step from a live state notifies `finished` exactly when it
/// completes the invocation, and never more than once.
pub proof fn lemma_step_finished(d: Descriptor, s: PipelineState, e: Event)
    requires
        !(s is Completed),
    ensures
        ({
            let r = spec_step(d, s, e);
            count_matching(r.1, finished_pred()) == (if r.0 is Completed {
                1nat
            } else {
                0nat
            })
        }),
{
    let r = spec_step(d, s, e);
    let p = finished_pred();
    assert(count_matching(Seq::<Signal>::empty(), p) == 0);
    if r.1.len() == 1 {
        lemma_count_one(r.1[0], p);
        assert(r.1 =~= seq![r.1[0]]);
    } else if r.1.len() == 2 {
        lemma_count_two(r.1[0], r.1[1], p);
        assert(r.1 =~= seq![r.1[0], r.1[1]]);
    }
}

/// The delegate's `finished` hook fires exactly once per invocation: a run
/// from a live state signals it once if it reaches completion and not at
/// all if it is still in flight, and a completed run never repeats it.
pub proof fn lemma_finished_once(d: Descriptor, s: PipelineState, events: Seq<Event>)
    requires
        !(s is Completed),
    ensures
        ({
            let r = spec_run(d, s, events);
            count_matching(r.1, finished_pred()) == (if r.0 is Completed {
                1nat
            } else {
                0nat
            })
        }),
    decreases events.len(),
{
    let r = spec_run(d, s, events);
    let p = finished_pred();
    if events.len() == 0 {
        assert(count_matching(Seq::<Signal>::empty(), p) == 0);
    } else {
        let st = spec_step(d, s, events[0]);
        lemma_step_finished(d, s, events[0]);
        lemma_count_app(st.1, spec_run(d, st.0, events.drop_first()).1, p);
        if st.0 is Completed {
            let result = st.0->Completed_result;
            lemma_completed_absorbs(d, result, events.drop_first());
            assert(count_matching(Seq::<Signal>::empty(), p) == 0);
        } else {
            lemma_finished_once(d, st.0, events.drop_first());
        }
    }
}

/// When the token provider succeeds and the transport answers with a
/// success-status response whose body decodes, the run completes with that
/// very response, the request sent is the one built from the descriptor
/// and the token, and `finished` is signalled exactly once, with success.
pub proof fn lemma_success_run(d: Descriptor, token: String, resp: RawResponse)
    requires
        spec_is_success(resp.status),
    ensures
        ({
            let r = spec_run(
                d,
                PipelineState::NeedToken,
                seq![
                    Event::Token(Ok(token)),
                    Event::Transport(Ok(resp)),
                    Event::Decoded(Ok(())),
                ],
            );
            &&& r.0 == PipelineState::Completed { result: Ok(resp) }
            &&& r.1 == seq![
                Signal::PreRequest,
                Signal::AskTransport { request: spec_request(d, token) },
                Signal::AskDecode { body: resp.body },
                Signal::Finished { success: true },
            ]
            &&& count_matching(r.1, finished_pred()) == 1
        }),
{
    let s0 = PipelineState::NeedToken;
    let e1 = Event::Token(Ok(token));
    let e2 = Event::Transport(Ok(resp));
    let e3 = Event::Decoded(Ok(()));
    let script = seq![e1, e2, e3];
    assert(script =~= seq![e1] + (seq![e2] + seq![e3]));
    lemma_run_app(d, s0, seq![e1], seq![e2] + seq![e3]);
    lemma_run_one(d, s0, e1);
    let s1 = spec_step(d, s0, e1).0;
    lemma_run_app(d, s1, seq![e2], seq![e3]);
    lemma_run_one(d, s1, e2);
    let s2 = spec_step(d, s1, e2).0;
    lemma_run_one(d, s2, e3);
    let r = spec_run(d, s0, script);
    assert(spec_step(d, s2, e3).0 == PipelineState::Completed {
        result: Ok(RawResponse { status: resp.status, body: resp.body }),
    });
    assert(RawResponse { status: resp.status, body: resp.body } == resp);
    assert(r.1 =~= seq![
        Signal::PreRequest,
        Signal::AskTransport { request: spec_request(d, token) },
        Signal::AskDecode { body: resp.body },
        Signal::Finished { success: true },
    ]);
    lemma_finished_once(d, s0, script);
}

/// When the transport answers with a non-success response whose body
/// parses as JSON and the delegate declines to retry, the run fails with
/// `BadRequest` carrying exactly that JSON body, and `finished` is
/// signalled exactly once.
pub proof fn lemma_bad_request_run(d: Descriptor, token: String, resp: RawResponse)
    requires
        !spec_is_success(resp.status),
        json_wellformed(resp.body@),
    ensures
        ({
            let r = spec_run(
                d,
                PipelineState::NeedToken,
                seq![
                    Event::Token(Ok(token)),
                    Event::Transport(Ok(resp)),
                    Event::Decision(Retry::Abort),
                ],
            );
            &&& r.0 == PipelineState::Completed {
                result: Err(Error::BadRequest(JsonBody { text: resp.body })),
            }
            &&& r.1 == seq![
                Signal::PreRequest,
                Signal::AskTransport { request: spec_request(d, token) },
                Signal::ConsultHttpFailure {
                    status: resp.status,
                    body: resp.body,
                    body_is_json: true,
                },
                Signal::Finished { success: false },
            ]
            &&& count_matching(r.1, finished_pred()) == 1
        }),
{
    let s0 = PipelineState::NeedToken;
    let e1 = Event::Token(Ok(token));
    let e2 = Event::Transport(Ok(resp));
    let e3 = Event::Decision(Retry::Abort);
    let script = seq![e1, e2, e3];
    assert(script =~= seq![e1] + (seq![e2] + seq![e3]));
    lemma_run_app(d, s0, seq![e1], seq![e2] + seq![e3]);
    lemma_run_one(d, s0, e1);
    let s1 = spec_step(d, s0, e1).0;
    lemma_run_app(d, s1, seq![e2], seq![e3]);
    lemma_run_one(d, s1, e2);
    let s2 = spec_step(d, s1, e2).0;
    lemma_run_one(d, s2, e3);
    let r = spec_run(d, s0, script);
    assert(r.1 =~= seq![
        Signal::PreRequest,
        Signal::AskTransport { request: spec_request(d, token) },
        Signal::ConsultHttpFailure { status: resp.status, body: resp.body, body_is_json: true },
        Signal::Finished { success: false },
    ]);
    lemma_finished_once(d, s0, script);
}

/// When the transport answers with a non-success response whose body does
/// not parse as JSON and the delegate declines to retry, the run fails
/// with `Failure` carrying the raw response.
pub proof fn lemma_failure_run(d: Descriptor, token: String, resp: RawResponse)
    requires
        !spec_is_success(resp.status),
        !json_wellformed(resp.body@),
    ensures
        ({
            let r = spec_run(
                d,
                PipelineState::NeedToken,
                seq![
                    Event::Token(Ok(token)),
                    Event::Transport(Ok(resp)),
                    Event::Decision(Retry::Abort),
                ],
            );
            &&& r.0 == PipelineState::Completed { result: Err(Error::Failure(resp)) }
            &&& count_matching(r.1, finished_pred()) == 1
        }),
{
    let s0 = PipelineState::NeedToken;
    let e1 = Event::Token(Ok(token));
    let e2 = Event::Transport(Ok(resp));
    let e3 = Event::Decision(Retry::Abort);
    let script = seq![e1, e2, e3];
    assert(script =~= seq![e1] + (seq![e2] + seq![e3]));
    lemma_run_app(d, s0, seq![e1], seq![e2] + seq![e3]);
    lemma_run_one(d, s0, e1);
    let s1 = spec_step(d, s0, e1).0;
    lemma_run_app(d, s1, seq![e2], seq![e3]);
    lemma_run_one(d, s1, e2);
    let s2 = spec_step(d, s1, e2).0;
    lemma_run_one(d, s2, e3);
    assert(RawResponse { status: resp.status, body: resp.body } == resp);
    lemma_finished_once(d, s0, script);
}

/// When the token provider fails and the delegate supplies no substitute,
/// the run aborts with `MissingToken` carrying the provider's error,
/// without anything reaching the transport, and `finished` is signalled
/// exactly once.
pub proof fn lemma_missing_token_run(d: Descriptor, err: String)
    ensures
        ({
            let r = spec_run(
                d,
                PipelineState::NeedToken,
                seq![Event::Token(Err(err)), Event::Substitute(None)],
            );
            &&& r.0 == PipelineState::Completed { result: Err(Error::MissingToken(err)) }
            &&& r.1 == seq![
                Signal::ConsultTokenFailure { err },
                Signal::Finished { success: false },
            ]
            &&& count_matching(r.1, ask_transport_pred()) == 0
        }),
{
    let s0 = PipelineState::NeedToken;
    let e1 = Event::Token(Err(err));
    let e2 = Event::Substitute(None);
    let script = seq![e1, e2];
    assert(script =~= seq![e1] + seq![e2]);
    lemma_run_app(d, s0, seq![e1], seq![e2]);
    lemma_run_one(d, s0, e1);
    let s1 = spec_step(d, s0, e1).0;
    lemma_run_one(d, s1, e2);
    let r = spec_run(d, s0, script);
    assert(r.1 =~= seq![
        Signal::ConsultTokenFailure { err },
        Signal::Finished { success: false },
    ]);
    lemma_count_two(r.1[0], r.1[1], ask_transport_pred());
}

/// When a success-status body does not decode as the expected schema, the
/// run aborts with `JsonDecodeError` carrying that body and the decoder's
/// message, after notifying the delegate, and `finished` is signalled
/// exactly once.
pub proof fn lemma_decode_failure_run(d: Descriptor, token: String, resp: RawResponse, err: String)
    requires
        spec_is_success(resp.status),
    ensures
        ({
            let r = spec_run(
                d,
                PipelineState::NeedToken,
                seq![
                    Event::Token(Ok(token)),
                    Event::Transport(Ok(resp)),
                    Event::Decoded(Err(err)),
                ],
            );
            &&& r.0 == PipelineState::Completed {
                result: Err(Error::JsonDecodeError(resp.body, err)),
            }
            &&& r.1 == seq![
                Signal::PreRequest,
                Signal::AskTransport { request: spec_request(d, token) },
                Signal::AskDecode { body: resp.body },
                Signal::ConsultDecodeFailure { body: resp.body, err },
                Signal::Finished { success: false },
            ]
            &&& count_matching(r.1, finished_pred()) == 1
        }),
{
    let s0 = PipelineState::NeedToken;
    let e1 = Event::Token(Ok(token));
    let e2 = Event::Transport(Ok(resp));
    let e3 = Event::Decoded(Err(err));
    let script = seq![e1, e2, e3];
    assert(script =~= seq![e1] + (seq![e2] + seq![e3]));
    lemma_run_app(d, s0, seq![e1], seq![e2] + seq![e3]);
    lemma_run_one(d, s0, e1);
    let s1 = spec_step(d, s0, e1).0;
    lemma_run_app(d, s1, seq![e2], seq![e3]);
    lemma_run_one(d, s1, e2);
    let s2 = spec_step(d, s1, e2).0;
    lemma_run_one(d, s2, e3);
    let r = spec_run(d, s0, script);
    assert(r.1 =~= seq![
        Signal::PreRequest,
        Signal::AskTransport { request: spec_request(d, token) },
        Signal::AskDecode { body: resp.body },
        Signal::ConsultDecodeFailure { body: resp.body, err },
        Signal::Finished { success: false },
    ]);
    lemma_finished_once(d, s0, script);
}

/// The event script of a call whose transport fails every time: the
/// delegate allows `n` retries, each after a sleep and a fresh token, and
/// then aborts.
pub open spec fn transport_retry_script(n: nat, token: String, err: String, millis: u64) -> Seq<
    Event,
>
    decreases n,
{
    if n == 0 {
        seq![
            Event::Token(Ok(token)),
            Event::Transport(Err(err)),
            Event::Decision(Retry::Abort),
        ]
    } else {
        seq![
            Event::Token(Ok(token)),
            Event::Transport(Err(err)),
            Event::Decision(Retry::After(millis)),
            Event::Slept,
        ] + transport_retry_script((n - 1) as nat, token, err, millis)
    }
}

/// A delegate that allows exactly `n` retries of a failing transport makes
/// the pipeline attempt the request `n + 1` times, sleeping and asking for
/// a fresh token before each retry, and the call then fails with
/// `HttpError`. Together with the token request that [`prepare`] signals,
/// the token provider is consulted `n + 1` times in all.
pub proof fn lemma_transport_retries(
    d: Descriptor,
    n: nat,
    token: String,
    err: String,
    millis: u64,
)
    ensures
        ({
            let r = spec_run(
                d,
                PipelineState::NeedToken,
                transport_retry_script(n, token, err, millis),
            );
            &&& r.0 == PipelineState::Completed { result: Err(Error::HttpError(err)) }
            &&& count_matching(r.1, ask_transport_pred()) == n + 1
            &&& count_matching(r.1, ask_sleep_pred()) == n
            &&& count_matching(r.1, ask_token_pred()) == n
            &&& count_matching(r.1, finished_pred()) == 1
        }),
    decreases n,
{
    let s0 = PipelineState::NeedToken;
    let e1 = Event::Token(Ok(token));
    let e2 = Event::Transport(Err(err));
    if n == 0 {
        let e3 = Event::Decision(Retry::Abort);
        let script = transport_retry_script(n, token, err, millis);
        assert(script =~= seq![e1] + (seq![e2] + seq![e3]));
        lemma_run_app(d, s0, seq![e1], seq![e2] + seq![e3]);
        lemma_run_one(d, s0, e1);
        let s1 = spec_step(d, s0, e1).0;
        lemma_run_app(d, s1, seq![e2], seq![e3]);
        lemma_run_one(d, s1, e2);
        let s2 = spec_step(d, s1, e2).0;
        lemma_run_one(d, s2, e3);
        let r = spec_run(d, s0, script);
        assert(r.1 =~= seq![
            Signal::PreRequest,
            Signal::AskTransport { request: spec_request(d, token) },
            Signal::ConsultTransportFailure { err },
            Signal::Finished { success: false },
        ]);
        count_retry_chunk(d, token, err, r.1);
        lemma_finished_once(d, s0, script);
    } else {
        let e3 = Event::Decision(Retry::After(millis));
        let e4 = Event::Slept;
        let prefix = seq![e1, e2, e3, e4];
        let rest = transport_retry_script((n - 1) as nat, token, err, millis);
        let script = transport_retry_script(n, token, err, millis);
        assert(script =~= prefix + rest);
        lemma_run_app(d, s0, prefix, rest);
        assert(prefix =~= seq![e1] + (seq![e2] + (seq![e3] + seq![e4])));
        lemma_run_app(d, s0, seq![e1], seq![e2] + (seq![e3] + seq![e4]));
        lemma_run_one(d, s0, e1);
        let s1 = spec_step(d, s0, e1).0;
        lemma_run_app(d, s1, seq![e2], seq![e3] + seq![e4]);
        lemma_run_one(d, s1, e2);
        let s2 = spec_step(d, s1, e2).0;
        lemma_run_app(d, s2, seq![e3], seq![e4]);
        lemma_run_one(d, s2, e3);
        let s3 = spec_step(d, s2, e3).0;
        lemma_run_one(d, s3, e4);
        let rp = spec_run(d, s0, prefix);
        assert(rp.0 == PipelineState::NeedToken);
        assert(rp.1 =~= seq![
            Signal::PreRequest,
            Signal::AskTransport { request: spec_request(d, token) },
            Signal::ConsultTransportFailure { err },
            Signal::AskSleep { millis },
            Signal::AskToken,
        ]);
        lemma_transport_retries(d, (n - 1) as nat, token, err, millis);
        let rr = spec_run(d, PipelineState::NeedToken, rest);
        count_prefix_chunk(d, token, err, millis, rp.1);
        lemma_count_app(rp.1, rr.1, ask_transport_pred());
        lemma_count_app(rp.1, rr.1, ask_sleep_pred());
        lemma_count_app(rp.1, rr.1, ask_token_pred());
        lemma_count_app(rp.1, rr.1, finished_pred());
    }
}

/// Counts over the four-signal trace of an aborted transport failure.
proof fn count_retry_chunk(d: Descriptor, token: String, err: String, sigs: Seq<Signal>)
    requires
        sigs == seq![
            Signal::PreRequest,
            Signal::AskTransport { request: spec_request(d, token) },
            Signal::ConsultTransportFailure { err },
            Signal::Finished { success: false },
        ],
    ensures
        count_matching(sigs, ask_transport_pred()) == 1,
        count_matching(sigs, ask_sleep_pred()) == 0,
        count_matching(sigs, ask_token_pred()) == 0,
{
    count_small(sigs);
}

/// Counts over the five-signal trace of one retried transport failure.
proof fn count_prefix_chunk(d: Descriptor, token: String, err: String, millis: u64, sigs: Seq<
    Signal,
>)
    requires
        sigs == seq![
            Signal::PreRequest,
            Signal::AskTransport { request: spec_request(d, token) },
            Signal::ConsultTransportFailure { err },
            Signal::AskSleep { millis },
            Signal::AskToken,
        ],
    ensures
        count_matching(sigs, ask_transport_pred()) == 1,
        count_matching(sigs, ask_sleep_pred()) == 1,
        count_matching(sigs, ask_token_pred()) == 1,
        count_matching(sigs, finished_pred()) == 0,
{
    count_small(sigs);
}

/// Unfolds [`count_matching`] over a trace of at most five signals, for
/// every predicate in use.
proof fn count_small(sigs: Seq<Signal>)
    requires
        sigs.len() <= 5,
    ensures
        count_matching(sigs, ask_transport_pred()) == count_explicit(sigs, ask_transport_pred()),
        count_matching(sigs, ask_sleep_pred()) == count_explicit(sigs, ask_sleep_pred()),
        count_matching(sigs, ask_token_pred()) == count_explicit(sigs, ask_token_pred()),
        count_matching(sigs, finished_pred()) == count_explicit(sigs, finished_pred()),
{
    reveal_with_fuel(count_matching, 7);
}

/// The sum, written out, of a predicate over the first five positions of a
/// short trace.
spec fn count_explicit(sigs: Seq<Signal>, pred: spec_fn(Signal) -> bool) -> nat {
    (if sigs.len() > 0 && pred(sigs[0]) {
        1nat
    } else {
        0nat
    }) + (if sigs.len() > 1 && pred(sigs[1]) {
        1nat
    } else {
        0nat
    }) + (if sigs.len() > 2 && pred(sigs[2]) {
        1nat
    } else {
        0nat
    }) + (if sigs.len() > 3 && pred(sigs[3]) {
        1nat
    } else {
        0nat
    }) + (if sigs.len() > 4 && pred(sigs[4]) {
        1nat
    } else {
        0nat
    })
}

/// Two structurally identical descriptors fed the same events produce
/// structurally identical outcomes: the pipeline is a function of its
/// inputs, so repeating a call changes nothing but the world outside.
/// The hub's configuration: the headers and URL prefix shared by every
/// call made through it.
#[derive(Clone)]
pub struct ClientConfig {
    pub user_agent: String,
    pub base_url: String,
    pub root_url: String,
}

impl ClientConfig {
    /// A configuration with the library's defaults.
    pub fn new() -> (r: ClientConfig)
        ensures
            r.user_agent@ == "google-api-rust-client/4.0.1"@,
            r.base_url@ == "https://testing.googleapis.com/"@,
            r.root_url@ == "https://testing.googleapis.com/"@,
    {
        ClientConfig {
            user_agent: String::from_str("google-api-rust-client/4.0.1"),
            base_url: String::from_str("https://testing.googleapis.com/"),
            root_url: String::from_str("https://testing.googleapis.com/"),
        }
    }

    /// Sets the `user-agent` header used in all requests and returns the
    /// previously set one.
    pub fn user_agent(&mut self, agent_name: String) -> (r: String)
        ensures
            final(self).user_agent == agent_name,
            final(self).base_url == old(self).base_url,
            final(self).root_url == old(self).root_url,
            r == old(self).user_agent,
    {
        let mut s = agent_name;
        core::mem::swap(&mut self.user_agent, &mut s);
        s
    }

    /// Sets the base URL used in all requests and returns the previously
    /// set one.
    pub fn base_url(&mut self, new_base_url: String) -> (r: String)
        ensures
            final(self).base_url == new_base_url,
            final(self).user_agent == old(self).user_agent,
            final(self).root_url == old(self).root_url,
            r == old(self).base_url,
    {
        let mut s = new_base_url;
        core::mem::swap(&mut self.base_url, &mut s);
        s
    }

    /// Sets the root URL and returns the previously set one.
    pub fn root_url(&mut self, new_root_url: String) -> (r: String)
        ensures
            final(self).root_url == new_root_url,
            final(self).user_agent == old(self).user_agent,
            final(self).base_url == old(self).base_url,
            r == old(self).root_url,
    {
        let mut s = new_root_url;
        core::mem::swap(&mut self.root_url, &mut s);
        s
    }
}

/// One endpoint invocation before assembly: what the per-endpoint builders
/// collect. `path` is relative to the configured base URL and already has
/// its path parameters substituted; `query_params` are the endpoint's own
/// query parameters; `reserved` are the parameter names the endpoint
/// claims for itself, which a caller-supplied additional parameter must
/// not reuse.
pub struct CallSpec {
    pub call_id: String,
    pub method: Method,
    pub path: String,
    pub query_params: Vec<(String, String)>,
    pub additional_params: Vec<(String, String)>,
    pub reserved: Vec<String>,
    pub scopes: Vec<String>,
    pub default_scope: String,
    pub body: Option<String>,
}

/// Whether the parameter list holds a pair with the given name.
pub open spec fn has_param(params: Seq<(String, String)>, name: Seq<char>) -> bool {
    exists|j: int| 0 <= j < params.len() && params[j].0@ == name
}

/// The first reserved name, from position `i` on, that a caller-supplied
/// parameter reuses.
pub open spec fn spec_clash_from(
    reserved: Seq<String>,
    params: Seq<(String, String)>,
    i: int,
) -> Option<String>
    decreases reserved.len() - i,
{
    if i < 0 || i >= reserved.len() {
        None
    } else if has_param(params, reserved[i]@) {
        Some(reserved[i])
    } else {
        spec_clash_from(reserved, params, i + 1)
    }
}

/// The first reserved name that a caller-supplied parameter reuses, if
/// any: the name that `FieldClash` reports.
pub open spec fn spec_clash(reserved: Seq<String>, params: Seq<(String, String)>) -> Option<
    String,
> {
    spec_clash_from(reserved, params, 0)
}

/// Whether the parameter list holds a pair with the given name.
fn param_list_contains(params: &Vec<(String, String)>, name: &String) -> (r: bool)
    ensures
        r == has_param(params@, name@),
{
    let mut j: usize = 0;
    while j < params.len()
        invariant
            0 <= j <= params@.len(),
            forall|k: int| 0 <= k < j ==> params@[k].0@ != name@,
        decreases params@.len() - j,
    {
        if params[j].0 == *name {
            assert(params@[j as int].0@ == name@);
            return true;
        }
        j += 1;
    }
    false
}

/// The first clash between the reserved names and the caller-supplied
/// parameters, as [`spec_clash`] defines it.
fn find_clash(reserved: &Vec<String>, params: &Vec<(String, String)>) -> (r: Option<String>)
    ensures
        r == spec_clash(reserved@, params@),
{
    let mut i: usize = 0;
    while i < reserved.len()
        invariant
            0 <= i <= reserved@.len(),
            spec_clash(reserved@, params@) == spec_clash_from(reserved@, params@, i as int),
        decreases reserved@.len() - i,
    {
        if param_list_contains(params, &reserved[i]) {
            return Some(reserved[i].clone());
        }
        i += 1;
    }
    None
}

/// Whether the scope list holds the given scope URL.
pub open spec fn spec_has_scope(scopes: Seq<String>, name: Seq<char>) -> bool {
    exists|j: int| 0 <= j < scopes.len() && scopes[j]@ == name
}

/// Whether the scope list holds the given scope URL.
pub fn scope_list_contains(scopes: &Vec<String>, name: &String) -> (r: bool)
    ensures
        r == spec_has_scope(scopes@, name@),
{
    let mut j: usize = 0;
    while j < scopes.len()
        invariant
            0 <= j <= scopes@.len(),
            forall|k: int| 0 <= k < j ==> scopes@[k]@ != name@,
        decreases scopes@.len() - j,
    {
        if scopes[j] == *name {
            assert(scopes@[j as int]@ == name@);
            return true;
        }
        j += 1;
    }
    false
}

/// Adds the scope to the list unless an equal one is already present, as
/// the builders' `add_scope` does.
pub fn insert_scope(scopes: &mut Vec<String>, name: String)
    ensures
        spec_has_scope(old(scopes)@, name@) ==> final(scopes)@ == old(scopes)@,
        !spec_has_scope(old(scopes)@, name@) ==> final(scopes)@ == old(scopes)@.push(name),
{
    if !scope_list_contains(scopes, &name) {
        scopes.push(name);
    }
}

/// Sets the named query parameter to the given value: replaces the first
/// pair with that name, or appends a new pair, as the builders' `param`
/// does.
pub fn upsert_param(params: &mut Vec<(String, String)>, name: String, value: String)
    ensures
        !has_param(old(params)@, name@) ==> final(params)@ == old(params)@.push((name, value)),
        has_param(old(params)@, name@) ==> exists|k: int|
            {
                &&& 0 <= k < old(params)@.len()
                &&& old(params)@[k].0@ == name@
                &&& (forall|j: int| 0 <= j < k ==> old(params)@[j].0@ != name@)
                &&& final(params)@ == old(params)@.update(k, (name, value))
            },
{
    let mut j: usize = 0;
    while j < params.len()
        invariant
            0 <= j <= params@.len(),
            params@ == old(params)@,
            forall|k: int| 0 <= k < j ==> params@[k].0@ != name@,
        decreases params@.len() - j,
    {
        if params[j].0 == name {
            let ghost k = j as int;
            let ghost before = params@;
            params.remove(j);
            params.insert(j, (name, value));
            proof {
                assert(params@ =~= before.update(k, (name, value)));
                assert(has_param(before, name@));
            }
            return ;
        }
        j += 1;
    }
    params.push((name, value));
}

/// The result of [`prepare`]: the call is ready to run, or it was rejected
/// before any network work.
pub enum Prepared {
    /// The assembled descriptor; execution may begin.
    Ready(Descriptor),
    /// A caller-supplied parameter reuses the named reserved parameter.
    /// The caller receives `Error::FieldClash` with this name.
    Clash(String),
    /// The configured base URL does not parse as a URL, so no request can
    /// be addressed.
    InvalidBaseUrl,
}

/// Assembles a call into a descriptor, or rejects it. A clash between a
/// caller-supplied parameter and a reserved one is detected here, before
/// any token is fetched and before anything reaches the transport: the
/// call then ends at once, with `finished` signalled once with failure.
/// Otherwise the query is the endpoint's own parameters, then the
/// caller-supplied ones, then `alt=json`; an empty scope set falls back to
/// the endpoint's default scope; and the URL is the configured base URL
/// joined with the call's path and the encoded query.
pub fn prepare(cs: CallSpec, cfg: &ClientConfig) -> (r: (Prepared, Vec<Signal>))
    ensures
        r.1@.len() >= 1 && r.1@[0] == (Signal::Begin { call_id: cs.call_id, method: cs.method }),
        forall|i: int| 0 <= i < r.1@.len() ==> !(r.1@[i] is AskTransport),
        match spec_clash(cs.reserved@, cs.additional_params@) {
            Some(name) => {
                &&& r.0 == Prepared::Clash(name)
                &&& r.1@ =~= seq![
                    Signal::Begin { call_id: cs.call_id, method: cs.method },
                    Signal::Finished { success: false },
                ]
            },
            None => {
                let qviews = param_views(cs.query_params@) + param_views(cs.additional_params@)
                    + seq![("alt"@, "json"@)];
                match encoded_url(cfg.base_url@ + cs.path@, qviews) {
                    Some(u) => {
                        &&& r.0 matches Prepared::Ready(descriptor)
                        &&& descriptor.call_id == cs.call_id
                        &&& descriptor.method == cs.method
                        &&& descriptor.url@ == u
                        &&& descriptor.body == cs.body
                        &&& descriptor.user_agent == cfg.user_agent
                        &&& (cs.scopes@.len() == 0 ==> descriptor.scopes@ =~= seq![
                            cs.default_scope,
                        ])
                        &&& (cs.scopes@.len() > 0 ==> descriptor.scopes == cs.scopes)
                        &&& r.1@ =~= seq![
                            Signal::Begin { call_id: cs.call_id, method: cs.method },
                            Signal::AskToken,
                        ]
                    },
                    None => {
                        &&& r.0 == Prepared::InvalidBaseUrl
                        &&& r.1@ =~= seq![
                            Signal::Begin { call_id: cs.call_id, method: cs.method },
                        ]
                    },
                }
            },
        },
{
    let mut signals: Vec<Signal> = Vec::new();
    signals.push(Signal::Begin { call_id: cs.call_id.clone(), method: cs.method });
    match find_clash(&cs.reserved, &cs.additional_params) {
        Some(name) => {
            signals.push(Signal::Finished { success: false });
            (Prepared::Clash(name), signals)
        },
        None => {
            let ghost qviews = param_views(cs.query_params@) + param_views(
                cs.additional_params@,
            ) + seq![("alt"@, "json"@)];
            let mut params = cs.query_params;
            let mut extra = cs.additional_params;
            params.append(&mut extra);
            params.push((String::from_str("alt"), String::from_str("json")));
            proof {
                assert(param_views(params@) =~= qviews);
            }
            let scopes = if cs.scopes.len() == 0 {
                let mut v: Vec<String> = Vec::new();
                v.push(cs.default_scope);
                v
            } else {
                cs.scopes
            };
            let base_and_path = cfg.base_url.clone().concat(cs.path.as_str());
            match url_with_params(base_and_path.as_str(), &params) {
                Some(url) => {
                    signals.push(Signal::AskToken);
                    let descriptor = Descriptor {
                        call_id: cs.call_id,
                        method: cs.method,
                        url,
                        body: cs.body,
                        scopes,
                        user_agent: cfg.user_agent.clone(),
                    };
                    (Prepared::Ready(descriptor), signals)
                },
                None => (Prepared::InvalidBaseUrl, signals),
            }
        },
    }
}

pub proof fn lemma_execute_idempotent(
    d1: Descriptor,
    d2: Descriptor,
    events1: Seq<Event>,
    events2: Seq<Event>,
)
    requires
        d1 == d2,
        events1 == events2,
    ensures
        spec_run(d1, PipelineState::NeedToken, events1) == spec_run(
            d2,
            PipelineState::NeedToken,
            events2,
        ),
{
}

} // verus!
