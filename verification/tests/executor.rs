use request_runner::executor::{
    dispatch, execute, flatten_headers, translate, Action, Event, Execution, ExecutionError,
    RawHeader, TransportCall, TransportFailure, TransportReply,
};
use request_runner::history::{decode_row, HistoryRow};
use request_runner::{Headers, HttpMethod, HttpRequest, HttpResponse};
use std::cell::RefCell;

fn headers_of(pairs: &[(&str, &str)]) -> Headers {
    let mut headers = Headers::new();
    for (name, value) in pairs {
        headers.insert(name.to_string(), value.to_string());
    }
    headers
}

fn raw(name: &str, value: &[u8]) -> RawHeader {
    RawHeader { name: name.to_string(), value: value.to_vec() }
}

fn request() -> HttpRequest {
    HttpRequest {
        method: HttpMethod::POST,
        url: "https://example.com/items".to_string(),
        body: Some("payload".to_string()),
        headers: Some(headers_of(&[("Accept", "*/*"), ("X-Trace", "1")])),
    }
}

fn not_found() -> TransportReply {
    TransportReply {
        status: 404,
        headers: vec![raw("content-type", b"text/plain"), raw("content-length", b"9")],
        body: Some("not found".to_string()),
    }
}

fn not_found_response() -> HttpResponse {
    HttpResponse {
        status_code: 404,
        body: "not found".to_string(),
        headers: headers_of(&[("content-type", "text/plain"), ("content-length", "9")]),
    }
}

#[test]
fn execute_gives_the_response_for_a_404() {
    let result = execute(request(), |_row| true, |_call| Ok(not_found()));
    assert_eq!(result, Ok(not_found_response()));
}

#[test]
fn execute_gives_the_general_failure_where_no_status_is_known() {
    let result =
        execute(request(), |_row| true, |_call| Err(TransportFailure { status: None }));
    assert_eq!(result, Err(ExecutionError::Transport));
    assert_eq!(result.unwrap_err().message(), "Something went wrong!");
}

#[test]
fn execute_gives_the_status_code_of_a_failure_that_carries_one() {
    let result =
        execute(request(), |_row| true, |_call| Err(TransportFailure { status: Some(503) }));
    assert_eq!(result, Err(ExecutionError::Status(503)));
    assert_eq!(result.unwrap_err().message(), "503");
}

#[test]
fn execute_sends_although_the_row_was_not_stored() {
    let sent = RefCell::new(false);
    let result = execute(
        request(),
        |_row| false,
        |_call| {
            *sent.borrow_mut() = true;
            Ok(not_found())
        },
    );
    assert!(*sent.borrow());
    assert_eq!(result, Ok(not_found_response()));
}

#[test]
fn execute_records_before_it_sends() {
    let order = RefCell::new(Vec::new());
    let _ = execute(
        request(),
        |_row| {
            order.borrow_mut().push("record");
            true
        },
        |_call| {
            order.borrow_mut().push("send");
            Ok(not_found())
        },
    );
    assert_eq!(*order.borrow(), vec!["record", "send"]);
}

#[test]
fn execute_hands_out_a_row_that_reads_as_the_request() {
    let stored: RefCell<Option<HistoryRow>> = RefCell::new(None);
    let _ = execute(
        request(),
        |row| {
            *stored.borrow_mut() = Some(row);
            true
        },
        |_call| Ok(not_found()),
    );
    let row = stored.into_inner().unwrap();
    let entry = decode_row(&row).unwrap();
    assert_eq!(entry.http_request(), &request());
}

#[test]
fn execute_hands_out_the_call_for_the_request() {
    let seen: RefCell<Option<TransportCall>> = RefCell::new(None);
    let _ = execute(
        request(),
        |_row| true,
        |call| {
            *seen.borrow_mut() = Some(call);
            Ok(not_found())
        },
    );
    let call = seen.into_inner().unwrap();
    assert_eq!(call.method, HttpMethod::POST);
    assert_eq!(call.url, "https://example.com/items");
    assert_eq!(call.body, Some("payload".to_string()));
    assert_eq!(Headers::from_entries(&call.headers), headers_of(&[("Accept", "*/*"), ("X-Trace", "1")]));
    assert_eq!(call.headers.len(), 2);
}

#[test]
fn dispatch_attaches_each_header_once_in_order() {
    let mut headers = headers_of(&[("b", "1"), ("a", "2")]);
    headers.insert("b".to_string(), "3".to_string());
    let call = dispatch(HttpRequest {
        method: HttpMethod::PUT,
        url: "u".to_string(),
        body: None,
        headers: Some(headers),
    });
    let fields: Vec<(&str, &str)> =
        call.headers.iter().map(|f| (f.name.as_str(), f.value.as_str())).collect();
    assert_eq!(fields, vec![("b", "3"), ("a", "2")]);
    assert_eq!(call.method, HttpMethod::PUT);
    assert_eq!(call.url, "u");
}

#[test]
fn dispatch_attaches_nothing_that_the_request_does_not_have() {
    let call = dispatch(HttpRequest {
        method: HttpMethod::GET,
        url: "https://example.com/".to_string(),
        body: None,
        headers: None,
    });
    assert_eq!(call.method, HttpMethod::GET);
    assert_eq!(call.url, "https://example.com/");
    assert!(call.headers.is_empty());
    assert_eq!(call.body, None);
    let call = dispatch(HttpRequest {
        method: HttpMethod::PATCH,
        url: String::new(),
        body: Some(String::new()),
        headers: Some(Headers::new()),
    });
    assert_eq!(call.method, HttpMethod::PATCH);
    assert!(call.headers.is_empty());
    assert_eq!(call.body, Some(String::new()));
}

#[test]
fn translate_gives_a_response_whatever_the_status() {
    for status in [0u16, 100, 200, 204, 301, 404, 500, 599, 999, u16::MAX] {
        let reply = TransportReply { status, headers: Vec::new(), body: Some("x".to_string()) };
        let response = translate(Ok(reply)).unwrap();
        assert_eq!(response.status_code, status);
        assert_eq!(response.body, "x");
        assert!(response.headers.is_empty());
    }
}

#[test]
fn translate_reads_a_body_that_could_not_be_read_as_empty() {
    let reply = TransportReply { status: 200, headers: Vec::new(), body: None };
    let response = translate(Ok(reply)).unwrap();
    assert_eq!(response.body, "");
    assert_eq!(response, HttpResponse { status_code: 200, body: String::new(), headers: Headers::new() });
}

#[test]
fn translate_reads_a_header_value_that_is_not_text_as_empty() {
    let reply = TransportReply {
        status: 200,
        headers: vec![raw("x-bin", &[0xff, 0xfe]), raw("x-text", b"ok"), raw("x-latin", &[b'a', 0xe9])],
        body: Some(String::new()),
    };
    let response = translate(Ok(reply)).unwrap();
    assert_eq!(response.headers, headers_of(&[("x-bin", ""), ("x-text", "ok"), ("x-latin", "")]));
}

#[test]
fn translate_lets_the_last_of_several_fields_of_a_name_decide() {
    let reply = TransportReply {
        status: 200,
        headers: vec![raw("set-cookie", b"a=1"), raw("x", b"y"), raw("set-cookie", b"b=2")],
        body: Some(String::new()),
    };
    let response = translate(Ok(reply)).unwrap();
    assert_eq!(response.headers.len(), 2);
    assert_eq!(response.headers.get("set-cookie"), Some(&"b=2".to_string()));
    assert_eq!(response.headers.get("x"), Some(&"y".to_string()));
    let reply = TransportReply {
        status: 200,
        headers: vec![raw("set-cookie", b"a=1"), raw("set-cookie", &[0x80])],
        body: None,
    };
    let response = translate(Ok(reply)).unwrap();
    assert_eq!(response.headers, headers_of(&[("set-cookie", "")]));
}

#[test]
fn translate_gives_an_error_for_every_failure() {
    assert_eq!(translate(Err(TransportFailure { status: None })), Err(ExecutionError::Transport));
    for status in [0u16, 400, 404, 500, u16::MAX] {
        assert_eq!(
            translate(Err(TransportFailure { status: Some(status) })),
            Err(ExecutionError::Status(status))
        );
    }
}

#[test]
fn flatten_headers_of_nothing_is_empty() {
    assert_eq!(flatten_headers(Vec::new()), Headers::new());
}

#[test]
fn messages_of_the_errors() {
    assert_eq!(ExecutionError::Transport.message(), "Something went wrong!");
    assert_eq!(ExecutionError::Status(404).message(), "404");
    assert_eq!(ExecutionError::Status(0).message(), "0");
    assert_eq!(ExecutionError::Status(u16::MAX).message(), "65535");
}

#[test]
fn an_execution_runs_through_its_three_steps() {
    let (state, action) = Execution::begin(request());
    assert!(!state.is_finished());
    assert!(matches!(state, Execution::Recording { .. }));
    let (entry, row) = match action {
        Action::Record { entry, row } => (entry, row),
        other => panic!("{:?}", other),
    };
    assert_eq!(entry.http_request(), &request());
    assert_eq!(decode_row(&row).unwrap().id(), entry.id());

    let (state, action) = state.step(Event::Recorded(true));
    assert!(matches!(state, Execution::AwaitingReply { recorded: true }));
    assert!(!state.is_finished());
    let call = match action {
        Action::Send(call) => call,
        other => panic!("{:?}", other),
    };
    assert_eq!(call.method, HttpMethod::POST);
    assert_eq!(call.url, "https://example.com/items");
    assert_eq!(call.body, Some("payload".to_string()));
    assert_eq!(call.headers.len(), 2);

    let (state, action) = state.step(Event::Answered(Ok(not_found())));
    assert!(matches!(state, Execution::Finished { recorded: true }));
    assert!(state.is_finished());
    match action {
        Action::Return(result) => assert_eq!(result, Ok(not_found_response())),
        other => panic!("{:?}", other),
    }
}

#[test]
fn an_execution_goes_on_when_the_row_was_not_stored() {
    let (state, _) = Execution::begin(request());
    let (state, action) = state.step(Event::Recorded(false));
    assert!(matches!(state, Execution::AwaitingReply { recorded: false }));
    assert!(matches!(action, Action::Send(_)));
    let (state, action) = state.step(Event::Answered(Err(TransportFailure { status: None })));
    assert!(matches!(state, Execution::Finished { recorded: false }));
    assert!(matches!(action, Action::Return(Err(ExecutionError::Transport))));
}

#[test]
fn an_execution_ignores_an_event_out_of_turn() {
    let (state, _) = Execution::begin(request());
    let (state, action) = state.step(Event::Answered(Ok(not_found())));
    assert!(matches!(action, Action::Ignore));
    assert!(matches!(state, Execution::Recording { .. }));

    let (state, _) = state.step(Event::Recorded(true));
    let (state, action) = state.step(Event::Recorded(false));
    assert!(matches!(action, Action::Ignore));
    assert!(matches!(state, Execution::AwaitingReply { recorded: true }));

    let (state, _) = state.step(Event::Answered(Ok(not_found())));
    let (state, action) = state.step(Event::Answered(Ok(not_found())));
    assert!(matches!(action, Action::Ignore));
    assert!(matches!(state, Execution::Finished { recorded: true }));
    let (state, action) = state.step(Event::Recorded(false));
    assert!(matches!(action, Action::Ignore));
    assert!(matches!(state, Execution::Finished { recorded: true }));
}

#[test]
fn two_executions_get_two_identifiers() {
    let take = |action: Action| match action {
        Action::Record { entry, .. } => entry.id(),
        other => panic!("{:?}", other),
    };
    let (_, one) = Execution::begin(request());
    let (_, other) = Execution::begin(request());
    assert_ne!(take(one), take(other));
}

#[test]
fn a_copy_of_a_request_or_a_response_says_the_same() {
    assert_eq!(request().clone(), request());
    assert!(request().same_as(&request()));
    assert_eq!(not_found_response().clone(), not_found_response());
    let mut other = request();
    other.body = None;
    assert_ne!(other, request());
    let mut other = request();
    other.headers = None;
    assert_ne!(other, request());
    let mut other = request();
    other.method = HttpMethod::PUT;
    assert_ne!(other, request());
    let mut other = request();
    other.url.push('/');
    assert_ne!(other, request());
    let mut other = not_found_response();
    other.status_code = 200;
    assert_ne!(other, not_found_response());
}
