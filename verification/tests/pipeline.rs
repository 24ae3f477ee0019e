use google_testing1::client::{
    execute, prepare, step, ClientConfig, Descriptor, Error, Event, JsonBody, Method,
    PipelineState, Prepared, RawResponse, Retry, Signal,
};
use google_testing1::api::ProjectMethods;

fn sample_descriptor(body: Option<&str>) -> Descriptor {
    Descriptor {
        call_id: "testing.projects.testMatrices.create".to_string(),
        method: Method::Post,
        url: "https://testing.googleapis.com/v1/projects/p1/testMatrices?alt=json".to_string(),
        body: body.map(|b| b.to_string()),
        scopes: vec!["https://www.googleapis.com/auth/cloud-platform".to_string()],
        user_agent: "google-api-rust-client/4.0.1".to_string(),
    }
}

fn count_matching(signals: &[Signal], pred: fn(&Signal) -> bool) -> usize {
    signals.iter().filter(|s| pred(s)).count()
}

#[test]
fn success_run_yields_decoded_response_and_finishes_once() {
    let body = "{\"testMatrixId\":\"m1\",\"state\":\"FINISHED\"}";
    let d = sample_descriptor(Some("{\"clientInfo\":null}"));
    let events = vec![
        Event::Token(Ok("tok-1".to_string())),
        Event::Transport(Ok(RawResponse { status: 200, body: body.to_string() })),
        Event::Decoded(Ok(())),
    ];
    let (state, signals) = execute(&d, events);
    assert_eq!(
        state,
        PipelineState::Completed {
            result: Ok(RawResponse { status: 200, body: body.to_string() })
        }
    );
    assert_eq!(count_matching(&signals, |s| matches!(s, Signal::Finished { .. })), 1);
    assert!(signals.contains(&Signal::Finished { success: true }));
    // The decoded value equals the fixture that the mock transport served.
    let decoded: serde_json::Value = serde_json::from_str(body).unwrap();
    let mut expected = serde_json::Map::new();
    expected.insert(
        "testMatrixId".to_string(),
        serde_json::Value::String("m1".to_string()),
    );
    expected.insert(
        "state".to_string(),
        serde_json::Value::String("FINISHED".to_string()),
    );
    assert_eq!(decoded, serde_json::Value::Object(expected));
}

#[test]
fn request_carries_descriptor_body_and_headers() {
    let d = sample_descriptor(Some("{\"clientInfo\":null}"));
    let events = vec![Event::Token(Ok("tok-9".to_string()))];
    let (_, signals) = execute(&d, events);
    assert_eq!(signals[0], Signal::PreRequest);
    match &signals[1] {
        Signal::AskTransport { request } => {
            assert_eq!(request.method, Method::Post);
            assert_eq!(request.url, d.url);
            assert_eq!(request.user_agent, "google-api-rust-client/4.0.1");
            assert_eq!(request.token, "tok-9");
            assert_eq!(request.body.as_deref(), Some("{\"clientInfo\":null}"));
            assert_eq!(request.content_length, Some("{\"clientInfo\":null}".len() as u64));
        }
        other => panic!("expected a transport request, got {:?}", other),
    }
}

#[test]
fn bodyless_request_has_no_content_headers() {
    let d = sample_descriptor(None);
    let (_, signals) = execute(&d, vec![Event::Token(Ok("t".to_string()))]);
    match &signals[1] {
        Signal::AskTransport { request } => {
            assert_eq!(request.body, None);
            assert_eq!(request.content_length, None);
        }
        other => panic!("expected a transport request, got {:?}", other),
    }
}

#[test]
fn bad_request_carries_exact_json_object() {
    let error_body = "{\"error\":{\"code\":400,\"message\":\"bad\"}}";
    let d = sample_descriptor(None);
    let events = vec![
        Event::Token(Ok("tok".to_string())),
        Event::Transport(Ok(RawResponse { status: 400, body: error_body.to_string() })),
        Event::Decision(Retry::Abort),
    ];
    let (state, signals) = execute(&d, events);
    match state {
        PipelineState::Completed { result: Err(Error::BadRequest(JsonBody { text })) } => {
            let got: serde_json::Value = serde_json::from_str(&text).unwrap();
            let mut inner = serde_json::Map::new();
            inner.insert("code".to_string(), serde_json::Value::Number(400.into()));
            inner.insert(
                "message".to_string(),
                serde_json::Value::String("bad".to_string()),
            );
            let mut outer = serde_json::Map::new();
            outer.insert("error".to_string(), serde_json::Value::Object(inner));
            assert_eq!(got, serde_json::Value::Object(outer));
        }
        other => panic!("expected BadRequest, got {:?}", other),
    }
    assert_eq!(count_matching(&signals, |s| matches!(s, Signal::Finished { .. })), 1);
    assert!(signals.contains(&Signal::Finished { success: false }));
}

#[test]
fn failure_on_non_json_error_body() {
    let d = sample_descriptor(None);
    let events = vec![
        Event::Token(Ok("tok".to_string())),
        Event::Transport(Ok(RawResponse { status: 503, body: "service down".to_string() })),
        Event::Decision(Retry::Abort),
    ];
    let (state, _) = execute(&d, events);
    assert_eq!(
        state,
        PipelineState::Completed {
            result: Err(Error::Failure(RawResponse {
                status: 503,
                body: "service down".to_string()
            }))
        }
    );
}

#[test]
fn transport_retries_exactly_n_times() {
    let d = sample_descriptor(None);
    let n = 2;
    let mut events = Vec::new();
    for _ in 0..n {
        events.push(Event::Token(Ok("tok".to_string())));
        events.push(Event::Transport(Err("connection reset".to_string())));
        events.push(Event::Decision(Retry::After(5)));
        events.push(Event::Slept);
    }
    events.push(Event::Token(Ok("tok".to_string())));
    events.push(Event::Transport(Err("connection reset".to_string())));
    events.push(Event::Decision(Retry::Abort));
    let (state, signals) = execute(&d, events);
    assert_eq!(
        state,
        PipelineState::Completed {
            result: Err(Error::HttpError("connection reset".to_string()))
        }
    );
    // The request went out n + 1 times; each retry slept and then asked
    // for a fresh token.
    assert_eq!(count_matching(&signals, |s| matches!(s, Signal::AskTransport { .. })), n + 1);
    assert_eq!(count_matching(&signals, |s| matches!(s, Signal::AskSleep { .. })), n);
    assert_eq!(count_matching(&signals, |s| matches!(s, Signal::AskToken)), n);
    assert_eq!(count_matching(&signals, |s| matches!(s, Signal::Finished { .. })), 1);
}

#[test]
fn http_failure_can_be_retried_to_success() {
    let d = sample_descriptor(None);
    let events = vec![
        Event::Token(Ok("t1".to_string())),
        Event::Transport(Ok(RawResponse { status: 500, body: "{}".to_string() })),
        Event::Decision(Retry::After(10)),
        Event::Slept,
        Event::Token(Ok("t2".to_string())),
        Event::Transport(Ok(RawResponse { status: 200, body: "{}".to_string() })),
        Event::Decoded(Ok(())),
    ];
    let (state, signals) = execute(&d, events);
    assert_eq!(
        state,
        PipelineState::Completed {
            result: Ok(RawResponse { status: 200, body: "{}".to_string() })
        }
    );
    assert!(signals.contains(&Signal::ConsultHttpFailure {
        status: 500,
        body: "{}".to_string(),
        body_is_json: true,
    }));
    assert!(signals.contains(&Signal::Finished { success: true }));
}

#[test]
fn missing_token_without_substitute() {
    let d = sample_descriptor(None);
    let events = vec![
        Event::Token(Err("no credentials".to_string())),
        Event::Substitute(None),
    ];
    let (state, signals) = execute(&d, events);
    assert_eq!(
        state,
        PipelineState::Completed {
            result: Err(Error::MissingToken("no credentials".to_string()))
        }
    );
    assert!(signals.contains(&Signal::ConsultTokenFailure { err: "no credentials".to_string() }));
    assert!(signals.contains(&Signal::Finished { success: false }));
}

#[test]
fn substitute_token_is_used_for_the_request() {
    let d = sample_descriptor(None);
    let events = vec![
        Event::Token(Err("expired".to_string())),
        Event::Substitute(Some("delegate-token".to_string())),
    ];
    let (state, signals) = execute(&d, events);
    assert!(matches!(state, PipelineState::NeedResponse { .. }));
    match signals.last().unwrap() {
        Signal::AskTransport { request } => assert_eq!(request.token, "delegate-token"),
        other => panic!("expected a transport request, got {:?}", other),
    }
}

#[test]
fn decode_error_reports_body_and_message() {
    let d = sample_descriptor(None);
    let events = vec![
        Event::Token(Ok("tok".to_string())),
        Event::Transport(Ok(RawResponse { status: 200, body: "not the schema".to_string() })),
        Event::Decoded(Err("missing field".to_string())),
    ];
    let (state, signals) = execute(&d, events);
    assert_eq!(
        state,
        PipelineState::Completed {
            result: Err(Error::JsonDecodeError(
                "not the schema".to_string(),
                "missing field".to_string()
            ))
        }
    );
    assert!(signals.contains(&Signal::ConsultDecodeFailure {
        body: "not the schema".to_string(),
        err: "missing field".to_string(),
    }));
    assert!(signals.contains(&Signal::Finished { success: false }));
}

#[test]
fn field_clash_reaches_no_transport() {
    let methods = ProjectMethods::new();
    let call = methods
        .test_matrices_get("p1", "m1")
        .param("alt", "media");
    let cfg = ClientConfig::new();
    let (prepared, signals) = prepare(call.call_spec(), &cfg);
    match prepared {
        Prepared::Clash(name) => assert_eq!(name, "alt"),
        other => panic!("expected a clash, got {:?}", match other {
            Prepared::Ready(_) => "ready",
            Prepared::InvalidBaseUrl => "invalid base url",
            Prepared::Clash(_) => unreachable!(),
        }),
    }
    assert_eq!(signals.len(), 2);
    assert!(matches!(signals[0], Signal::Begin { .. }));
    assert_eq!(signals[1], Signal::Finished { success: false });
    assert_eq!(count_matching(&signals, |s| matches!(s, Signal::AskTransport { .. })), 0);
    assert_eq!(count_matching(&signals, |s| matches!(s, Signal::AskToken)), 0);
}

#[test]
fn identical_descriptors_yield_identical_outcomes() {
    let make_events = || {
        vec![
            Event::Token(Ok("tok".to_string())),
            Event::Transport(Ok(RawResponse { status: 200, body: "{\"id\":1}".to_string() })),
            Event::Decoded(Ok(())),
        ]
    };
    let r1 = execute(&sample_descriptor(Some("{}")), make_events());
    let r2 = execute(&sample_descriptor(Some("{}")), make_events());
    assert_eq!(r1.0, r2.0);
    assert_eq!(r1.1, r2.1);
}

#[test]
fn completed_machine_ignores_further_events() {
    let d = sample_descriptor(None);
    let (state, _) = execute(
        &d,
        vec![
            Event::Token(Err("down".to_string())),
            Event::Substitute(None),
            Event::Token(Ok("late".to_string())),
            Event::Slept,
        ],
    );
    assert_eq!(
        state,
        PipelineState::Completed { result: Err(Error::MissingToken("down".to_string())) }
    );
}

#[test]
fn single_step_stalls_on_mismatched_event() {
    let d = sample_descriptor(None);
    let (state, signals) = step(&d, PipelineState::NeedToken, Event::Slept);
    assert_eq!(state, PipelineState::NeedToken);
    assert!(signals.is_empty());
}
