use ssr::error::{IoFailure, IoFailureKind, RenderingError};
use ssr::json::to_vec;
use ssr::protocol::{encode_frame, split_frame, RequestEnvelope, RequestUrl};
use ssr::session::{RenderAction, RenderEvent, RenderPhase, RenderSession};
use ssr::ssr::{assemble_request, encode_request};
use ssr::worker::{Port, Worker};
use ssr::{JsRenderer, Ssr};

const ID: &str = "936da01f-9abd-4d9d-80c7-02af85c822a8";

fn system(global: Option<&str>) -> Ssr {
    Ssr {
        worker: Worker { port: Port::new(9000), process_id: 4242 },
        js_worker: String::from("/app/worker.js"),
        global_js_renderer: global.map(String::from),
    }
}

fn url(path: &str, query: Option<&str>) -> Option<RequestUrl> {
    Some(RequestUrl { path: String::from(path), query: query.map(String::from) })
}

fn payload(text: &str) -> Result<String, serde_json::Error> {
    serde_json::to_string(text)
}

fn broken_payload() -> Result<String, serde_json::Error> {
    Err(serde_json::from_str::<String>("x").unwrap_err())
}

fn per_request(path: &str) -> JsRenderer {
    JsRenderer::PerRequest { path: String::from(path) }
}

fn refused() -> IoFailure {
    IoFailure {
        kind: IoFailureKind::ConnectionRefused,
        description: String::from("Connection refused (os error 111)"),
    }
}

fn reset() -> IoFailure {
    IoFailure {
        kind: IoFailureKind::Other,
        description: String::from("Connection reset by peer (os error 104)"),
    }
}

fn connecting(attempt: u64, request: Result<Vec<u8>, RenderingError>) -> RenderSession {
    RenderSession {
        request_id: String::from(ID),
        phase: RenderPhase::Connecting { attempt, request },
    }
}

fn in_phase(phase: RenderPhase) -> RenderSession {
    RenderSession { request_id: String::from(ID), phase }
}

fn requested_renderer(frame: &[u8]) -> serde_json::Value {
    let (meta, _) = split_frame(frame).unwrap();
    let value: serde_json::Value = serde_json::from_slice(&meta).unwrap();
    value.as_object().unwrap()["requestRenderer"].clone()
}

/// Runs a call against a renderer that is reached at once and answers with
/// `response`; gives the frame that was written and what the call ended in.
fn run(
    system: &Ssr,
    url: Option<RequestUrl>,
    data: Result<String, serde_json::Error>,
    js_renderer: JsRenderer,
    response: &str,
) -> (Option<Vec<u8>>, Result<String, RenderingError>, bool) {
    let (mut session, mut action) =
        system.render_with_request_id(String::from(ID), url, data, js_renderer);
    let mut written = None;
    loop {
        let event = match action {
            RenderAction::Connect { .. } => RenderEvent::Connected(Ok(())),
            RenderAction::Write { frame } => {
                assert!(written.is_none());
                written = Some(frame);
                RenderEvent::Written(Ok(()))
            }
            RenderAction::Read => RenderEvent::Received(Ok(String::from(response))),
            RenderAction::Return { result, shutdown } => {
                assert_eq!(session.phase, RenderPhase::Closed);
                return (written, result, shutdown);
            }
        };
        let (next, asked) = session.advance(&system.worker, event);
        session = next;
        action = asked.unwrap();
    }
}

#[test]
fn envelope_for_the_global_renderer_names_none() {
    assert_eq!(
        system(Some("/app/renderer.js")).envelope(
            String::from(ID),
            url("/home", None),
            JsRenderer::Global
        ),
        Ok(RequestEnvelope {
            request_id: String::from(ID),
            request_renderer: None,
            url: RequestUrl { path: String::from("/home"), query: None },
        })
    );
}

#[test]
fn envelope_for_a_request_renderer_names_it() {
    for global in [None, Some("/app/renderer.js")] {
        assert_eq!(
            system(global).envelope(
                String::from(ID),
                url("/posts", Some("page=2")),
                per_request("/app/posts.js")
            ),
            Ok(RequestEnvelope {
                request_id: String::from(ID),
                request_renderer: Some(String::from("/app/posts.js")),
                url: RequestUrl {
                    path: String::from("/posts"),
                    query: Some(String::from("page=2")),
                },
            })
        );
    }
}

#[test]
fn envelope_without_global_renderer_is_refused() {
    assert_eq!(
        system(None).envelope(String::from(ID), url("/home", None), JsRenderer::Global),
        Err(RenderingError::GlobalRendererNotProvided)
    );
}

#[test]
fn envelope_without_path_is_refused() {
    for global in [None, Some("/app/renderer.js")] {
        assert_eq!(
            system(global).envelope(String::from(ID), None, JsRenderer::Global),
            Err(RenderingError::InvalidUri)
        );
        assert_eq!(
            system(global).envelope(String::from(ID), None, per_request("/app/posts.js")),
            Err(RenderingError::InvalidUri)
        );
    }
}

#[test]
fn assemble_request_frames_the_two_parts() {
    assert_eq!(
        assemble_request(Ok(b"{}".to_vec()), Ok(b"\"hi\"".to_vec())),
        Ok(encode_frame(b"{}", b"\"hi\""))
    );
}

#[test]
fn assemble_request_reports_the_metadata_first() {
    assert_eq!(
        assemble_request(Err(String::from("meta")), Err(String::from("data"))),
        Err(RenderingError::UrlSerializationError(String::from("meta")))
    );
    assert_eq!(
        assemble_request(Err(String::from("meta")), Ok(Vec::new())),
        Err(RenderingError::UrlSerializationError(String::from("meta")))
    );
}

#[test]
fn assemble_request_reports_the_payload() {
    assert_eq!(
        assemble_request(Ok(Vec::new()), Err(String::from("data"))),
        Err(RenderingError::DataSerializationError(String::from("data")))
    );
}

#[test]
fn encode_request_frames_envelope_and_escaped_payload() {
    let envelope = RequestEnvelope {
        request_id: String::from(ID),
        request_renderer: None,
        url: RequestUrl { path: String::from("/home"), query: None },
    };
    let data = payload("<b>Tom & Jerry</b>");
    let text = serde_json::to_string("<b>Tom & Jerry</b>").unwrap();
    let frame = encode_request(&envelope, data).unwrap();
    let (meta, data) = split_frame(&frame).unwrap();
    assert_eq!(meta, envelope.to_json().unwrap());
    assert_eq!(data, to_vec(&text).unwrap());
    assert_eq!(
        String::from_utf8(data).unwrap(),
        "\"\\\"\\u003cb\\u003eTom \\u0026 Jerry\\u003c/b\\u003e\\\"\""
    );
}

#[test]
fn encode_request_reports_a_payload_that_is_no_json() {
    let envelope = RequestEnvelope {
        request_id: String::from(ID),
        request_renderer: None,
        url: RequestUrl { path: String::from("/home"), query: None },
    };
    let reason = serde_json::from_str::<String>("x").unwrap_err().to_string();
    assert_eq!(
        encode_request(&envelope, broken_payload()),
        Err(RenderingError::DataSerializationError(reason))
    );
}

#[test]
fn request_round_trip_for_ascii_and_unicode_payloads() {
    let payloads = ["hi", "", "<script>alert('&')</script>", "日本語 <&> 🎉", "a\"b\\c\n"];
    for text in payloads {
        let json = serde_json::to_string(text).unwrap();
        let frame = system(Some("/app/renderer.js"))
            .request(String::from(ID), url("/caf\u{e9}", Some("q=<1>")), payload(text), JsRenderer::Global)
            .unwrap();
        let (meta, data) = split_frame(&frame).unwrap();
        assert!(data.iter().all(|b| !b"<>&".contains(b)));
        let sent: String = serde_json::from_slice(&data).unwrap();
        assert_eq!(sent, json);
        let parsed: String = serde_json::from_str(&sent).unwrap();
        assert_eq!(parsed, text);
        let meta: serde_json::Value = serde_json::from_slice(&meta).unwrap();
        assert_eq!(meta["requestId"], serde_json::Value::String(String::from(ID)));
        assert_eq!(meta["requestRenderer"], serde_json::Value::Null);
        assert_eq!(meta["url"]["path"], serde_json::Value::String(String::from("/caf\u{e9}")));
        assert_eq!(meta["url"]["query"], serde_json::Value::String(String::from("q=<1>")));
    }
}

#[test]
fn request_renderer_overrides_the_global_one() {
    for global in [None, Some("/app/renderer.js")] {
        let frame = system(global)
            .request(String::from(ID), url("/home", None), payload("hi"), per_request("/app/page.js"))
            .unwrap();
        assert_eq!(
            requested_renderer(&frame),
            serde_json::Value::String(String::from("/app/page.js"))
        );
    }
    let frame = system(Some("/app/renderer.js"))
        .request(String::from(ID), url("/home", None), payload("hi"), JsRenderer::Global)
        .unwrap();
    assert_eq!(requested_renderer(&frame), serde_json::Value::Null);
}

#[test]
fn request_errors_come_in_order() {
    assert_eq!(
        system(None).request(String::from(ID), None, broken_payload(), JsRenderer::Global),
        Err(RenderingError::InvalidUri)
    );
    assert_eq!(
        system(None).request(String::from(ID), url("/", None), broken_payload(), JsRenderer::Global),
        Err(RenderingError::GlobalRendererNotProvided)
    );
    assert!(matches!(
        system(None).request(
            String::from(ID),
            url("/", None),
            broken_payload(),
            per_request("/app/page.js")
        ),
        Err(RenderingError::DataSerializationError(_))
    ));
}

#[test]
fn render_opens_with_a_connection_attempt() {
    let (session, action) = system(Some("/app/renderer.js")).render_with_request_id(
        String::from(ID),
        url("/home", None),
        payload("hi"),
        JsRenderer::Global,
    );
    assert_eq!(action, RenderAction::Connect { delay_ms: 0 });
    assert_eq!(session.request_id, ID);
    let expected = system(Some("/app/renderer.js"))
        .request(String::from(ID), url("/home", None), payload("hi"), JsRenderer::Global)
        .unwrap();
    assert_eq!(session.phase, RenderPhase::Connecting { attempt: 1, request: Ok(expected) });
}

#[test]
fn render_gives_each_call_an_identifier() {
    let system = system(Some("/app/renderer.js"));
    let uri = "/home".parse::<http::Uri>().unwrap();
    let (first, action) = system.render(&uri, payload("hi"), JsRenderer::Global);
    let (second, _) = system.render(&uri, payload("hi"), JsRenderer::Global);
    assert_eq!(action, RenderAction::Connect { delay_ms: 0 });
    assert_ne!(first.request_id, second.request_id);
    for id in [&first.request_id, &second.request_id] {
        assert_eq!(id.len(), 36);
        for (i, c) in id.chars().enumerate() {
            if [8, 13, 18, 23].contains(&i) {
                assert_eq!(c, '-');
            } else {
                assert!(c.is_ascii_digit() || ('a'..='f').contains(&c));
            }
        }
    }
    match first.phase {
        RenderPhase::Connecting { attempt, request } => {
            assert_eq!(attempt, 1);
            let (meta, _) = split_frame(&request.unwrap()).unwrap();
            let meta: serde_json::Value = serde_json::from_slice(&meta).unwrap();
            assert_eq!(meta["requestId"], serde_json::Value::String(first.request_id));
        }
        phase => panic!("not connecting: {:?}", phase),
    }
}

#[test]
fn scenario_renderer_echoes_markup() {
    let system = system(Some("/app/renderer.js"));
    let (written, result, shutdown) =
        run(&system, url("/home", None), payload("hi"), JsRenderer::Global, "<b>hi</b>");
    assert_eq!(result, Ok(String::from("<b>hi</b>")));
    assert!(!shutdown);
    let (meta, data) = split_frame(&written.unwrap()).unwrap();
    assert_eq!(
        String::from_utf8(meta).unwrap(),
        "{\"requestId\":\"936da01f-9abd-4d9d-80c7-02af85c822a8\",\"requestRenderer\":null,\"url\":{\"path\":\"/home\",\"query\":null}}"
    );
    assert_eq!(String::from_utf8(data).unwrap(), "\"\\\"hi\\\"\"");
}

#[test]
fn scenario_renderer_reports_an_exception() {
    let system = system(Some("/app/renderer.js"));
    let (written, result, shutdown) = run(
        &system,
        url("/home", None),
        payload("hi"),
        JsRenderer::Global,
        "ERROR:TypeError: x is not defined",
    );
    assert_eq!(
        result,
        Err(RenderingError::JsExceptionDuringRendering(String::from(
            "TypeError: x is not defined"
        )))
    );
    assert!(!shutdown);
    assert!(written.is_some());
}

#[test]
fn global_renderer_that_is_not_configured_writes_nothing() {
    let (written, result, shutdown) =
        run(&system(None), url("/home", None), payload("hi"), JsRenderer::Global, "<b>hi</b>");
    assert_eq!(result, Err(RenderingError::GlobalRendererNotProvided));
    assert!(shutdown);
    assert_eq!(written, None);
}

#[test]
fn target_without_path_writes_nothing() {
    let (written, result, shutdown) = run(
        &system(Some("/app/renderer.js")),
        None,
        payload("hi"),
        JsRenderer::Global,
        "<b>hi</b>",
    );
    assert_eq!(result, Err(RenderingError::InvalidUri));
    assert!(shutdown);
    assert_eq!(written, None);
}

#[test]
fn payload_that_is_no_json_writes_nothing() {
    let (written, result, shutdown) = run(
        &system(Some("/app/renderer.js")),
        url("/home", None),
        broken_payload(),
        JsRenderer::Global,
        "<b>hi</b>",
    );
    assert!(matches!(result, Err(RenderingError::DataSerializationError(_))));
    assert!(shutdown);
    assert_eq!(written, None);
}

#[test]
fn refused_connection_is_retried_four_times() {
    let worker = Worker { port: Port::new(9000), process_id: 4242 };
    let mut session = connecting(1, Ok(vec![1, 2, 3]));
    let mut delays = Vec::new();
    let last = loop {
        let (next, action) = session.advance(&worker, RenderEvent::Connected(Err(refused())));
        session = next;
        match action {
            Some(RenderAction::Connect { delay_ms }) => delays.push(delay_ms),
            other => break other,
        }
    };
    assert_eq!(delays, vec![6, 9, 12, 15]);
    assert_eq!(
        last,
        Some(RenderAction::Return {
            result: Err(RenderingError::ConnectionError(refused())),
            shutdown: false,
        })
    );
    assert_eq!(session.phase, RenderPhase::Closed);
}

#[test]
fn refused_connection_that_opens_later_goes_on() {
    let worker = Worker { port: Port::new(9000), process_id: 4242 };
    let session = connecting(1, Ok(vec![1, 2, 3]));
    let (session, action) = session.advance(&worker, RenderEvent::Connected(Err(refused())));
    assert_eq!(action, Some(RenderAction::Connect { delay_ms: 6 }));
    assert_eq!(session.phase, RenderPhase::Connecting { attempt: 2, request: Ok(vec![1, 2, 3]) });
    let (session, action) = session.advance(&worker, RenderEvent::Connected(Ok(())));
    assert_eq!(action, Some(RenderAction::Write { frame: vec![1, 2, 3] }));
    assert_eq!(session.phase, RenderPhase::Writing);
    assert_eq!(session.request_id, ID);
}

#[test]
fn other_connection_failure_is_not_retried() {
    let worker = Worker { port: Port::new(9000), process_id: 4242 };
    for attempt in 1..=5 {
        let (session, action) = connecting(attempt, Ok(vec![1, 2, 3]))
            .advance(&worker, RenderEvent::Connected(Err(reset())));
        assert_eq!(
            action,
            Some(RenderAction::Return {
                result: Err(RenderingError::ConnectionError(reset())),
                shutdown: false,
            })
        );
        assert_eq!(session.phase, RenderPhase::Closed);
    }
}

#[test]
fn connection_failure_comes_before_a_refused_request() {
    let worker = Worker { port: Port::new(9000), process_id: 4242 };
    let (_, action) = connecting(1, Err(RenderingError::InvalidUri))
        .advance(&worker, RenderEvent::Connected(Err(reset())));
    assert_eq!(
        action,
        Some(RenderAction::Return {
            result: Err(RenderingError::ConnectionError(reset())),
            shutdown: false,
        })
    );
}

#[test]
fn failed_write_closes_the_connection() {
    let worker = Worker { port: Port::new(9000), process_id: 4242 };
    let (session, action) =
        in_phase(RenderPhase::Writing).advance(&worker, RenderEvent::Written(Err(reset())));
    assert_eq!(
        action,
        Some(RenderAction::Return {
            result: Err(RenderingError::RenderRequestError(reset())),
            shutdown: true,
        })
    );
    assert_eq!(session.phase, RenderPhase::Closed);
}

#[test]
fn write_is_followed_by_read() {
    let worker = Worker { port: Port::new(9000), process_id: 4242 };
    let (session, action) =
        in_phase(RenderPhase::Writing).advance(&worker, RenderEvent::Written(Ok(())));
    assert_eq!(action, Some(RenderAction::Read));
    assert_eq!(session.phase, RenderPhase::Reading);
}

#[test]
fn failed_read_closes_the_connection() {
    let worker = Worker { port: Port::new(9000), process_id: 4242 };
    let (session, action) =
        in_phase(RenderPhase::Reading).advance(&worker, RenderEvent::Received(Err(reset())));
    assert_eq!(
        action,
        Some(RenderAction::Return {
            result: Err(RenderingError::RenderResponseError(reset())),
            shutdown: true,
        })
    );
    assert_eq!(session.phase, RenderPhase::Closed);
}

#[test]
fn event_that_is_not_awaited_changes_nothing() {
    let worker = Worker { port: Port::new(9000), process_id: 4242 };
    let (session, action) =
        connecting(3, Ok(vec![1])).advance(&worker, RenderEvent::Written(Ok(())));
    assert_eq!(action, None);
    assert_eq!(session, connecting(3, Ok(vec![1])));
    let (session, action) = in_phase(RenderPhase::Writing)
        .advance(&worker, RenderEvent::Received(Ok(String::from("<b>hi</b>"))));
    assert_eq!(action, None);
    assert_eq!(session.phase, RenderPhase::Writing);
    let (session, action) =
        in_phase(RenderPhase::Reading).advance(&worker, RenderEvent::Connected(Ok(())));
    assert_eq!(action, None);
    assert_eq!(session.phase, RenderPhase::Reading);
}

#[test]
fn closed_session_stays_closed() {
    let worker = Worker { port: Port::new(9000), process_id: 4242 };
    let events = [
        RenderEvent::Connected(Ok(())),
        RenderEvent::Connected(Err(refused())),
        RenderEvent::Written(Ok(())),
        RenderEvent::Received(Ok(String::from("late"))),
        RenderEvent::Received(Err(reset())),
    ];
    for event in events {
        let (session, action) = in_phase(RenderPhase::Closed).advance(&worker, event);
        assert_eq!(action, None);
        assert_eq!(session.phase, RenderPhase::Closed);
    }
}

fn opened_with(uri: &str, global: Option<&str>) -> Result<serde_json::Value, RenderingError> {
    let uri = uri.parse::<http::Uri>().unwrap();
    let (session, action) = system(global).render(&uri, payload("hi"), JsRenderer::Global);
    assert_eq!(action, RenderAction::Connect { delay_ms: 0 });
    match session.phase {
        RenderPhase::Connecting { attempt: 1, request } => request.map(|frame| {
            let (meta, _) = split_frame(&frame).unwrap();
            let meta: serde_json::Value = serde_json::from_slice(&meta).unwrap();
            meta["url"].clone()
        }),
        phase => panic!("not at the first attempt: {:?}", phase),
    }
}

fn url_value(path: &str, query: Option<&str>) -> serde_json::Value {
    let mut url = serde_json::Map::new();
    url.insert(String::from("path"), serde_json::Value::String(String::from(path)));
    url.insert(
        String::from("query"),
        match query {
            Some(query) => serde_json::Value::String(String::from(query)),
            None => serde_json::Value::Null,
        },
    );
    serde_json::Value::Object(url)
}

#[test]
fn render_takes_path_and_query_from_the_uri() {
    assert_eq!(opened_with("/home", Some("/r.js")), Ok(url_value("/home", None)));
    assert_eq!(opened_with("/posts/1?page=2", Some("/r.js")), Ok(url_value("/posts/1", Some("page=2"))));
    assert_eq!(opened_with("/posts?", Some("/r.js")), Ok(url_value("/posts", Some(""))));
    assert_eq!(
        opened_with("http://example.com/a/b?c=d&e=f", Some("/r.js")),
        Ok(url_value("/a/b", Some("c=d&e=f")))
    );
    assert_eq!(opened_with("http://example.com", Some("/r.js")), Ok(url_value("/", None)));
    assert_eq!(opened_with("*", Some("/r.js")), Ok(url_value("*", None)));
}

#[test]
fn render_refuses_a_uri_that_is_only_an_authority() {
    for global in [None, Some("/r.js")] {
        assert_eq!(opened_with("example.com", global), Err(RenderingError::InvalidUri));
        assert_eq!(opened_with("example.com:8080", global), Err(RenderingError::InvalidUri));
        assert_eq!(opened_with("127.0.0.1:9000", global), Err(RenderingError::InvalidUri));
    }
}

#[test]
fn render_without_global_renderer_is_refused_after_the_uri() {
    assert_eq!(opened_with("/home", None), Err(RenderingError::GlobalRendererNotProvided));
}
