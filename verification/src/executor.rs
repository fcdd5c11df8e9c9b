//! One execution of a request: record it, hand it to the transport, and turn
//! what comes back into a response or a failure.
//!
//! The caller performs the actions. It stores the row, sends the call, and
//! reports each outcome as an event; `step` decides what follows.

use crate::error::DecodeError;
use crate::headers::{distinct_names, entries_map, Header, Headers};
use crate::history::{
    create_http_history, decoded_row, stored_form, EntryView, HistoryRow, HttpRequestHistoryEntry,
};
use crate::method::HttpMethod;
use crate::model::{HttpRequest, HttpResponse, ResponseView};
use crate::text::{decimal, decimal_string, header_text, header_value_text};
use vstd::prelude::*;

verus! {

/// What the transport is asked to send.
#[derive(Debug)]
pub struct TransportCall {
    pub method: HttpMethod,
    pub url: String,
    /// The header fields to attach, each name once.
    pub headers: Vec<Header>,
    /// The payload to attach as it is, if there is one.
    pub body: Option<String>,
}

/// A header field as the transport received it. The value is bytes: not every
/// value can be read as text.
#[derive(Debug)]
pub struct RawHeader {
    pub name: String,
    pub value: Vec<u8>,
}

/// What the transport received. A name may occur in several fields.
#[derive(Debug)]
pub struct TransportReply {
    pub status: u16,
    pub headers: Vec<RawHeader>,
    /// The body read as text, or `None` where it could not be read.
    pub body: Option<String>,
}

/// A request that the transport could not carry through.
#[derive(Debug)]
pub struct TransportFailure {
    /// The status code that the failure carries, if it carries one.
    pub status: Option<u16>,
}

/// Why an execution ended without a response.
#[derive(Clone, Copy, Debug, PartialEq, Eq, Structural)]
pub enum ExecutionError {
    /// The transport failed and named a status code.
    Status(u16),
    /// The transport failed and named none.
    Transport,
}

impl ExecutionError {
    /// The message that the caller is shown: the status code in decimal, or
    /// one sentence for every other failure.
    pub open spec fn message_text(self) -> Seq<char> {
        match self {
            ExecutionError::Status(code) => decimal(code as nat),
            ExecutionError::Transport => "Something went wrong!"@,
        }
    }

    /// The message that the caller is shown.
    pub fn message(&self) -> (text: String)
        ensures
            text@ == self.message_text(),
    {
        match self {
            ExecutionError::Status(code) => decimal_string(*code),
            ExecutionError::Transport => "Something went wrong!".to_owned(),
        }
    }
}

/// The header fields to attach to the call for a request.
pub open spec fn call_fields(headers: Option<Headers>) -> Seq<Header> {
    match headers {
        Some(headers) => headers.fields(),
        None => Seq::empty(),
    }
}

/// The mapping that received header fields are flattened to: each value read
/// as text, and for a name that occurs more than once the last field.
pub open spec fn flattened(fields: Seq<RawHeader>) -> Map<Seq<char>, Seq<char>>
    decreases fields.len(),
{
    if fields.len() == 0 {
        Map::empty()
    } else {
        flattened(fields.drop_last()).insert(fields.last().name@, header_text(fields.last().value@))
    }
}

/// The response that a reply of the transport is turned into.
pub open spec fn response_for(reply: TransportReply) -> ResponseView {
    ResponseView {
        status_code: reply.status,
        body: match reply.body {
            Some(body) => body@,
            None => Seq::empty(),
        },
        headers: flattened(reply.headers@),
    }
}

/// The error that a failure of the transport is turned into.
pub open spec fn error_for(failure: TransportFailure) -> ExecutionError {
    match failure.status {
        Some(code) => ExecutionError::Status(code),
        None => ExecutionError::Transport,
    }
}

/// The mapping that the headers of a request stand for; empty where the
/// request has none.
pub open spec fn header_map(headers: Option<Headers>) -> Map<Seq<char>, Seq<char>> {
    match headers {
        Some(headers) => headers@,
        None => Map::empty(),
    }
}

/// Whether a call is the one to send for a request: the same method and
/// address, each header field of the request once and no other, and the body
/// of the request if it has one.
pub open spec fn is_call_for(call: TransportCall, request: HttpRequest) -> bool {
    &&& call.method == request.method
    &&& call.url == request.url
    &&& call.headers@ == call_fields(request.headers)
    &&& distinct_names(call.headers@)
    &&& entries_map(call.headers@) == header_map(request.headers)
    &&& call.body == request.body
}

/// Whether a result is the one to give for what the transport reported: the
/// response for a reply, the error for a failure.
pub open spec fn is_result_of(
    result: Result<HttpResponse, ExecutionError>,
    outcome: Result<TransportReply, TransportFailure>,
) -> bool {
    match outcome {
        Ok(reply) => result matches Ok(response) && response@ == response_for(reply),
        Err(failure) => result == Err::<HttpResponse, ExecutionError>(error_for(failure)),
    }
}

/// Builds the call for a request.
pub fn dispatch(request: HttpRequest) -> (call: TransportCall)
    ensures
        is_call_for(call, request),
{
    let HttpRequest { method, url, body, headers } = request;
    let fields = match headers {
        Some(headers) => headers.into_entries(),
        None => Vec::new(),
    };
    TransportCall { method, url, headers: fields, body }
}

/// Flattens received header fields into a mapping.
pub fn flatten_headers(fields: Vec<RawHeader>) -> (headers: Headers)
    ensures
        headers@ == flattened(fields@),
{
    let mut headers = Headers::new();
    let mut i: usize = 0;
    while i < fields.len()
        invariant
            i <= fields.len(),
            headers@ == flattened(fields@.take(i as int)),
        decreases fields.len() - i,
    {
        let value = header_value_text(&fields[i].value);
        headers.insert(fields[i].name.clone(), value);
        assert(fields@.take(i + 1).drop_last() == fields@.take(i as int));
        i += 1;
    }
    assert(fields@.take(i as int) == fields@);
    headers
}

/// Turns what the transport reports into the result of the execution. A reply
/// always gives a response, whatever its status code: a body that could not
/// be read counts as empty, and so does a header value that is not text. A
/// failure never gives one.
pub fn translate(outcome: Result<TransportReply, TransportFailure>) -> (result: Result<
    HttpResponse,
    ExecutionError,
>)
    ensures
        is_result_of(result, outcome),
{
    match outcome {
        Ok(reply) => {
            let TransportReply { status, headers, body } = reply;
            let body = match body {
                Some(body) => body,
                None => String::new(),
            };
            Ok(HttpResponse { status_code: status, body, headers: flatten_headers(headers) })
        },
        Err(failure) => match failure.status {
            Some(code) => Err(ExecutionError::Status(code)),
            None => Err(ExecutionError::Transport),
        },
    }
}

/// Where one execution stands.
#[derive(Debug)]
pub enum Execution {
    /// The row is with the caller to be stored; the call waits.
    Recording { call: TransportCall },
    /// The call is with the transport.
    AwaitingReply {
        /// Whether the row was stored.
        recorded: bool,
    },
    /// The result has been given.
    Finished {
        /// Whether the row was stored.
        recorded: bool,
    },
}

/// What the caller reports.
#[derive(Debug)]
pub enum Event {
    /// The row was handed to the table; `true` if the table took it.
    Recorded(bool),
    /// The transport has answered or failed.
    Answered(Result<TransportReply, TransportFailure>),
}

/// What the caller is to do next.
#[derive(Debug)]
pub enum Action {
    /// Store the row, then report `Event::Recorded`.
    Record { entry: HttpRequestHistoryEntry, row: HistoryRow },
    /// Send the call, then report `Event::Answered`.
    Send(TransportCall),
    /// Hand the result to whoever asked for the execution.
    Return(Result<HttpResponse, ExecutionError>),
    /// Nothing: the event does not belong to this point of the execution.
    Ignore,
}

impl Execution {
    /// Starts the execution of a request. The first action is to store the
    /// row of a fresh history entry for it.
    pub fn begin(request: HttpRequest) -> (started: (Execution, Action))
        ensures
            started.0 matches Execution::Recording { call } && is_call_for(call, request),
            started.1 matches Action::Record { entry, row } && entry@.http_request == request@
                && stored_form(row@, entry@) && (entry@.timestamp.secs <= 253_402_300_799
                ==> decoded_row(row@) == Ok::<EntryView, DecodeError>(entry@)),
    {
        let (entry, row) = create_http_history(&request);
        let call = dispatch(request);
        (Execution::Recording { call }, Action::Record { entry, row })
    }

    /// Takes one event. Once the row has been handed to the table the call is
    /// sent, whether or not the table took the row. Once the transport has
    /// answered or failed the result is given. An event that comes at another
    /// point changes nothing.
    pub fn step(self, event: Event) -> (next: (Execution, Action))
        ensures
            match (self, event) {
                (Execution::Recording { call }, Event::Recorded(stored)) => {
                    &&& next.0 == Execution::AwaitingReply { recorded: stored }
                    &&& next.1 == Action::Send(call)
                },
                (Execution::AwaitingReply { recorded }, Event::Answered(outcome)) => {
                    &&& next.0 == Execution::Finished { recorded }
                    &&& next.1 matches Action::Return(result) && is_result_of(result, outcome)
                },
                _ => next.0 == self && next.1 is Ignore,
            },
    {
        match (self, event) {
            (Execution::Recording { call }, Event::Recorded(stored)) => (
                Execution::AwaitingReply { recorded: stored },
                Action::Send(call),
            ),
            (Execution::AwaitingReply { recorded }, Event::Answered(outcome)) => (
                Execution::Finished { recorded },
                Action::Return(translate(outcome)),
            ),
            (state, _) => (state, Action::Ignore),
        }
    }

    /// Whether the result has been given.
    pub fn is_finished(&self) -> (finished: bool)
        ensures
            finished == (*self is Finished),
    {
        match self {
            Execution::Finished { .. } => true,
            _ => false,
        }
    }
}

/// Executes a request with a table and a transport that are given as two
/// functions. The row is handed to `record`, whose answer does not matter;
/// then the call for the request is handed to `send`, and the result is the
/// one for what `send` reported.
pub fn execute<R, S>(request: HttpRequest, record: R, send: S) -> (result: Result<
    HttpResponse,
    ExecutionError,
>) where
    R: FnOnce(HistoryRow) -> bool,
    S: FnOnce(TransportCall) -> Result<TransportReply, TransportFailure>,

    requires
        forall|row: HistoryRow| call_requires(record, (row,)),
        forall|call: TransportCall| call_requires(send, (call,)),
    ensures
        exists|entry: EntryView, row: HistoryRow, stored: bool|
            entry.http_request == request@ && stored_form(row@, entry) && call_ensures(
                record,
                (row,),
                stored,
            ),
        exists|call: TransportCall, outcome: Result<TransportReply, TransportFailure>|
            is_call_for(call, request) && call_ensures(send, (call,), outcome) && is_result_of(
                result,
                outcome,
            ),
{
    let (state, action) = Execution::begin(request);
    let stored = match action {
        Action::Record { entry, row } => {
            let stored = record(row);
            assert(entry@.http_request == request@ && stored_form(row@, entry@) && call_ensures(
                record,
                (row,),
                stored,
            ));
            stored
        },
        _ => vstd::pervasive::unreached(),
    };
    let (state, action) = state.step(Event::Recorded(stored));
    match action {
        Action::Send(call) => {
            let outcome = send(call);
            let (_, action) = state.step(Event::Answered(outcome));
            match action {
                Action::Return(result) => {
                    assert(is_call_for(call, request) && call_ensures(send, (call,), outcome)
                        && is_result_of(result, outcome));
                    result
                },
                _ => vstd::pervasive::unreached(),
            }
        },
        _ => vstd::pervasive::unreached(),
    }
}

} // verus!
