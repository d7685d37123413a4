use bytes::Bytes;
use fetchttp::{
    fetch, finish, prepare, prepare_with, AbortController, AbortSignal, FetchError, Headers,
    ReadableStream, Request, RequestInit, ResponseType, Transport, TransportRequest,
    TransportResponse,
};
use serde_json::Value;

/// A transport that records what it is asked and answers with what it was
/// given.
struct Stub {
    calls: Vec<(String, String, Vec<(String, String)>, Vec<u8>)>,
    status: u16,
    headers: Vec<(String, Vec<u8>)>,
    body: Vec<u8>,
    failure: Option<String>,
}

impl Stub {
    fn answering(status: u16, headers: &[(&str, &str)], body: &str) -> Stub {
        Stub {
            calls: Vec::new(),
            status,
            headers: headers
                .iter()
                .map(|(k, v)| (k.to_string(), v.as_bytes().to_vec()))
                .collect(),
            body: body.as_bytes().to_vec(),
            failure: None,
        }
    }

    fn failing(message: &str) -> Stub {
        let mut stub = Stub::answering(0, &[], "");
        stub.failure = Some(message.to_string());
        stub
    }
}

impl Transport for Stub {
    fn send(&mut self, request: &TransportRequest) -> Result<TransportResponse, String> {
        self.calls.push((
            request.method.clone(),
            request.url.clone(),
            request.headers.clone(),
            request.body.to_vec(),
        ));
        match &self.failure {
            Some(message) => Err(message.clone()),
            None => Ok(TransportResponse {
                status: self.status,
                headers: self.headers.clone(),
                body: Bytes::from(self.body.clone()),
            }),
        }
    }
}

fn post(body: ReadableStream) -> RequestInit {
    let mut init = RequestInit::new();
    init.method = Some("POST".to_string());
    init.body = Some(body);
    init
}

#[test]
fn test_fetch_invalid_url() {
    let mut stub = Stub::answering(200, &[], "");
    let result = fetch(&mut stub, "not-a-url", None);
    assert!(result.is_err());
    assert!(stub.calls.is_empty());
}

#[test]
fn fetch_end_to_end() {
    let mut stub = Stub::answering(201, &[("x-a", "1")], "ok");
    let response = fetch(
        &mut stub,
        "https://example.com/x",
        Some(post(ReadableStream::from_text("payload"))),
    )
    .unwrap();
    assert_eq!(response.status(), 201);
    assert!(response.ok());
    assert_eq!(response.status_text(), "Created");
    assert_eq!(response.headers().get("x-a").unwrap().unwrap(), "1");
    assert_eq!(response.url(), "https://example.com/x");
    assert!(!response.redirected());
    assert_eq!(response.response_type(), ResponseType::Basic);
    assert_eq!(response.text().unwrap(), "ok");

    assert_eq!(stub.calls.len(), 1);
    let (method, url, headers, body) = &stub.calls[0];
    assert_eq!(method, "POST");
    assert_eq!(url, "https://example.com/x");
    assert_eq!(
        headers,
        &vec![(
            "content-type".to_string(),
            "text/plain;charset=UTF-8".to_string()
        )]
    );
    assert_eq!(body, &b"payload".to_vec());
}

#[test]
fn fetch_with_an_aborted_signal_does_not_reach_the_transport() {
    let mut stub = Stub::answering(200, &[], "never");
    let mut init = RequestInit::new();
    init.signal = Some(AbortSignal::abort(Some("gone".to_string())));
    match fetch(&mut stub, "https://example.com/", Some(init)) {
        Err(FetchError::Abort(e)) => assert_eq!(e.message(), "The operation was aborted"),
        _ => panic!("an aborted fetch went on"),
    }
    assert_eq!(stub.calls.len(), 0);

    // a signal that its controller aborted before the fetch
    let controller = AbortController::new();
    let mut init = RequestInit::new();
    init.signal = Some(controller.signal().clone());
    controller.abort();
    assert!(matches!(
        fetch(&mut stub, "https://example.com/", Some(init)),
        Err(FetchError::Abort(_))
    ));
    assert_eq!(stub.calls.len(), 0);

    // a signal that is not aborted lets the fetch through
    let mut init = RequestInit::new();
    init.signal = Some(AbortSignal::new());
    assert!(fetch(&mut stub, "https://example.com/", Some(init)).is_ok());
    assert_eq!(stub.calls.len(), 1);
}

#[test]
fn fetch_validation_failures_do_not_reach_the_transport() {
    let mut stub = Stub::answering(200, &[], "");
    let mut init = RequestInit::new();
    init.method = Some("bad method".to_string());
    match fetch(&mut stub, "https://example.com/", Some(init)) {
        Err(FetchError::Type(e)) => assert_eq!(e.message(), "Invalid method"),
        _ => panic!("accepted"),
    }
    let mut init = RequestInit::new();
    init.body = Some(ReadableStream::from_text("x"));
    match fetch(&mut stub, "https://example.com/", Some(init)) {
        Err(FetchError::Type(e)) => {
            assert_eq!(e.message(), "Request with GET/HEAD method cannot have body")
        }
        _ => panic!("accepted"),
    }
    match fetch(&mut stub, "/x", None) {
        Err(FetchError::Type(e)) => assert_eq!(e.message(), "Invalid URL"),
        _ => panic!("accepted"),
    }
    // validation comes before the signal
    let mut init = RequestInit::new();
    init.method = Some("".to_string());
    init.signal = Some(AbortSignal::abort(None));
    assert!(matches!(
        fetch(&mut stub, "https://example.com/", Some(init)),
        Err(FetchError::Type(_))
    ));
    assert!(stub.calls.is_empty());
}

#[test]
fn fetch_transport_failure_is_a_network_failure() {
    let mut stub = Stub::failing("connection refused");
    match fetch(&mut stub, "https://example.com/", None) {
        Err(FetchError::Network(e)) => assert_eq!(e.message(), "connection refused"),
        _ => panic!("a failed exchange gave a response"),
    }
    assert_eq!(stub.calls.len(), 1);
}

#[test]
fn fetch_get_sends_no_body_and_no_headers() {
    let mut stub = Stub::answering(204, &[], "");
    let response = fetch(&mut stub, "http://localhost:8080/path?q=1", None).unwrap();
    assert_eq!(response.status(), 204);
    assert_eq!(response.status_text(), "No Content");
    assert!(response.body().is_none());
    assert_eq!(response.text().unwrap(), "");
    let (method, url, headers, body) = &stub.calls[0];
    assert_eq!(method, "GET");
    assert_eq!(url, "http://localhost:8080/path?q=1");
    assert!(headers.is_empty());
    assert!(body.is_empty());
}

#[test]
fn fetch_sends_json_and_custom_headers() {
    let mut stub = Stub::answering(200, &[("Content-Type", "application/json")], "{\"ok\":true}");
    let mut headers = Headers::new();
    headers.set("X-Custom", " yes ").unwrap();
    headers.set("Accept", "*/*").unwrap();
    let mut map = serde_json::Map::new();
    map.insert("n".to_string(), Value::Bool(false));
    let mut init = post(ReadableStream::from_json(&Value::Object(map)));
    init.method = Some("put".to_string());
    init.headers = Some(headers);
    let response = fetch(&mut stub, "https://example.com/api", Some(init)).unwrap();
    assert_eq!(
        response.headers().get("content-type").unwrap().unwrap(),
        "application/json"
    );
    assert_eq!(response.json().unwrap()["ok"], Value::Bool(true));

    let (method, _, headers, body) = &stub.calls[0];
    assert_eq!(method, "PUT");
    let mut headers = headers.clone();
    headers.sort();
    assert_eq!(
        headers,
        vec![
            ("accept".to_string(), "*/*".to_string()),
            ("content-type".to_string(), "application/json".to_string()),
            ("x-custom".to_string(), "yes".to_string()),
        ]
    );
    assert_eq!(body, &b"{\"n\":false}".to_vec());
}

#[test]
fn fetch_error_status_is_a_response() {
    let mut stub = Stub::answering(404, &[], "missing");
    let response = fetch(&mut stub, "https://example.com/none", None).unwrap();
    assert_eq!(response.status(), 404);
    assert!(!response.ok());
    assert_eq!(response.status_text(), "Not Found");
    assert_eq!(response.text().unwrap(), "missing");
}

#[test]
fn prepare_with_decides_by_what_the_signal_said() {
    let with_signal = || {
        let mut init = post(ReadableStream::from_text("p"));
        init.signal = Some(AbortSignal::new());
        Request::new("https://example.com/", Some(init)).unwrap()
    };
    match prepare_with(with_signal(), true) {
        Err(FetchError::Abort(e)) => assert_eq!(e.message(), "The operation was aborted"),
        _ => panic!("went on"),
    }
    let sent = prepare_with(with_signal(), false).unwrap();
    assert_eq!(sent.method, "POST");
    assert_eq!(sent.url, "https://example.com/");
    assert_eq!(sent.body.to_vec(), b"p".to_vec());

    // without a signal, what a signal would have said does not count
    let request = Request::new("https://example.com/", None).unwrap();
    let sent = prepare_with(request, true).unwrap();
    assert_eq!(sent.method, "GET");
    assert!(sent.body.is_empty());
    assert!(sent.headers.is_empty());
}

#[test]
fn prepare_refuses_what_the_http_crate_refuses() {
    // a header name longer than the http crate takes
    let long = "x".repeat(70000);
    let mut headers = Headers::new();
    headers.set(&long, "v").unwrap();
    let mut init = RequestInit::new();
    init.headers = Some(headers);
    let request = Request::new("https://example.com/", Some(init)).unwrap();
    match prepare(request) {
        Err(FetchError::Type(e)) => assert_eq!(e.message(), "Invalid header name"),
        _ => panic!("accepted"),
    }
    // a method that is a token, with a character that the http crate does not take
    let mut init = RequestInit::new();
    init.method = Some("A|B".to_string());
    let request = Request::new("https://example.com/", Some(init));
    if let Ok(request) = request {
        let expected = http::Method::from_bytes(b"A|B").is_ok();
        match prepare(request) {
            Ok(sent) => {
                assert!(expected);
                assert_eq!(sent.method, "A|B");
            }
            Err(FetchError::Network(e)) => {
                assert!(!expected);
                assert_eq!(e.message(), "Invalid method");
            }
            Err(_) => panic!("another kind of failure"),
        }
    } else {
        panic!("a token was refused as a method");
    }
}

#[test]
fn prepare_sends_a_body_that_was_read_as_no_bytes() {
    let mut init = post(ReadableStream::from_text("once"));
    init.method = Some("POST".to_string());
    let mut request = Request::new("https://example.com/", Some(init)).unwrap();
    assert_eq!(request.read_text().unwrap(), "once");
    let sent = prepare(request).unwrap();
    assert!(sent.body.is_empty());
}

#[test]
fn finish_makes_the_response_of_the_answer() {
    let reply = TransportResponse {
        status: 503,
        headers: vec![
            ("X-Many".to_string(), b" a ".to_vec()),
            ("bad name".to_string(), b"dropped".to_vec()),
            ("x-bad-value".to_string(), b"a\nb".to_vec()),
            ("x-not-utf8".to_string(), vec![0x61, 0xFF]),
            ("x-not-ascii".to_string(), "caf\u{e9}".as_bytes().to_vec()),
            ("x-many".to_string(), b"b".to_vec()),
            ("Set-Cookie".to_string(), b"a=1, b=2".to_vec()),
        ],
        body: Bytes::from(vec![0xFFu8, 0x00]),
    };
    let response = finish("https://example.com/r".to_string(), Ok(reply)).unwrap();
    assert_eq!(response.status(), 503);
    assert_eq!(response.status_text(), "Service Unavailable");
    assert_eq!(response.url(), "https://example.com/r");
    assert!(!response.redirected());
    assert_eq!(response.headers().get("x-many").unwrap().unwrap(), "b");
    assert!(!response.headers().has("x-bad-value").unwrap());
    assert!(!response.headers().has("x-not-utf8").unwrap());
    assert!(!response.headers().has("x-not-ascii").unwrap());
    assert_eq!(response.headers().entries().len(), 2);
    assert_eq!(
        response.headers().get_set_cookie(),
        vec!["a=1".to_string(), "b=2".to_string()]
    );
    assert_eq!(response.array_buffer().unwrap().to_vec(), vec![0xFFu8, 0x00]);

    // the reason phrase is that of the http crate, which knows more than the short table
    let reply = TransportResponse { status: 418, headers: Vec::new(), body: Bytes::new() };
    let response = finish("u".to_string(), Ok(reply)).unwrap();
    assert_eq!(response.status_text(), "I'm a teapot");
    assert!(response.body().is_none());

    // a status that the http crate has no phrase for, or does not take
    for status in [299u16, 599, 99, 1000] {
        let reply = TransportResponse { status, headers: Vec::new(), body: Bytes::new() };
        let response = finish("u".to_string(), Ok(reply)).unwrap();
        assert_eq!(response.status(), status);
        assert_eq!(response.status_text(), "");
    }

    match finish("u".to_string(), Err("tls handshake".to_string())) {
        Err(FetchError::Network(e)) => assert_eq!(e.message(), "tls handshake"),
        _ => panic!("a failure gave a response"),
    }
}
