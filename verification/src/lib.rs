//! Execution of HTTP requests described as plain values, with a history of
//! every request that was sent.
//!
//! The crate holds the rules; the caller owns the network and the database.
//! A request becomes a row of the history table and a call for the transport,
//! and what the transport hands back becomes a response or a failure.
//!
//! - `model`, `method`, `headers`: the request, the response and their parts.
//! - `history`: what a row of the history table holds and what it reads as.
//! - `executor`: the steps of one execution.
//! - `identifier`, `timestamp`, `json`: identifiers, times and JSON texts,
//!   written and read by the uuid, chrono and serde_json crates.
//! - `text`: decimal numbers and header values as text.
//! - `error`: what can be wrong with stored text.

pub mod error;
pub mod executor;
pub mod headers;
pub mod history;
pub mod identifier;
pub mod json;
pub mod method;
pub mod model;
pub mod text;
pub mod timestamp;

pub use crate::error::DecodeError;
pub use crate::executor::{execute, ExecutionError};
pub use crate::headers::{Header, Headers};
pub use crate::history::{HistoryRow, HttpRequestHistoryEntry};
pub use crate::method::HttpMethod;
pub use crate::model::{HttpRequest, HttpResponse};
pub use crate::timestamp::Timestamp;
