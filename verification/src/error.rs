//! What can go wrong while stored or received text is turned into values.

use vstd::prelude::*;

verus! {

/// Why a piece of stored text could not be read back.
#[derive(Clone, Copy, Debug, PartialEq, Eq, Structural)]
pub enum DecodeError {
    /// A column that must hold text holds none.
    MissingColumn,
    /// The `url` column holds no text.
    MissingUrl,
    /// The identifier is not a UUID.
    InvalidId,
    /// The date and time are not written as RFC 3339 asks.
    InvalidTimestamp,
    /// The method or the headers are not the JSON that is expected there.
    MalformedJson,
    /// The method is none of `GET`, `POST`, `PUT` and `PATCH`.
    UnknownMethod,
}

} // verus!
