//! The request methods and their upper-case names.

use crate::error::DecodeError;
use vstd::prelude::*;

verus! {

/// The methods a request can be sent with.
#[derive(Clone, Copy, Debug, PartialEq, Eq, Structural)]
pub enum HttpMethod {
    POST,
    GET,
    PATCH,
    PUT,
}

impl HttpMethod {
    /// The upper-case name under which the method is written and stored.
    pub open spec fn name(self) -> Seq<char> {
        match self {
            HttpMethod::POST => "POST"@,
            HttpMethod::GET => "GET"@,
            HttpMethod::PATCH => "PATCH"@,
            HttpMethod::PUT => "PUT"@,
        }
    }

    /// The method that `text` names, if it names one.
    pub open spec fn named(text: Seq<char>) -> Option<HttpMethod> {
        if text == "POST"@ {
            Some(HttpMethod::POST)
        } else if text == "GET"@ {
            Some(HttpMethod::GET)
        } else if text == "PATCH"@ {
            Some(HttpMethod::PATCH)
        } else if text == "PUT"@ {
            Some(HttpMethod::PUT)
        } else {
            None
        }
    }

    /// The name of the method.
    pub fn as_str(&self) -> (name: &'static str)
        ensures
            name@ == self.name(),
    {
        match self {
            HttpMethod::POST => "POST",
            HttpMethod::GET => "GET",
            HttpMethod::PATCH => "PATCH",
            HttpMethod::PUT => "PUT",
        }
    }

    /// The name of the method as an owned string.
    pub fn encode(&self) -> (name: String)
        ensures
            name@ == self.name(),
    {
        self.as_str().to_owned()
    }

    /// Reads a method name. Only the four upper-case names are accepted.
    pub fn decode(text: &str) -> (method: Result<HttpMethod, DecodeError>)
        ensures
            method == match HttpMethod::named(text@) {
                Some(m) => Ok::<HttpMethod, DecodeError>(m),
                None => Err(DecodeError::UnknownMethod),
            },
    {
        let owned = text.to_owned();
        if owned == "POST".to_owned() {
            Ok(HttpMethod::POST)
        } else if owned == "GET".to_owned() {
            Ok(HttpMethod::GET)
        } else if owned == "PATCH".to_owned() {
            Ok(HttpMethod::PATCH)
        } else if owned == "PUT".to_owned() {
            Ok(HttpMethod::PUT)
        } else {
            Err(DecodeError::UnknownMethod)
        }
    }
}

/// Writing a method and reading the name back gives the method again.
pub proof fn lemma_method_round_trip(method: HttpMethod)
    ensures
        HttpMethod::named(method.name()) == Some(method),
{
    lemma_names_differ();
}

/// A text that names a method is exactly the name that the method is written
/// with, so reading and writing gives the text again.
pub proof fn lemma_name_round_trip(text: Seq<char>)
    ensures
        match HttpMethod::named(text) {
            Some(method) => method.name() == text,
            None => forall|method: HttpMethod| method.name() != text,
        },
{
}

/// The name of a method holds capital letters only, so JSON writes it
/// between quotes as it is.
pub proof fn lemma_names_need_no_escape(method: HttpMethod)
    ensures
        crate::json::needs_no_escape(method.name()),
{
    reveal_strlit("POST");
    reveal_strlit("GET");
    reveal_strlit("PATCH");
    reveal_strlit("PUT");
}

/// No two methods share a name.
pub proof fn lemma_names_differ()
    ensures
        "POST"@ != "GET"@,
        "POST"@ != "PATCH"@,
        "POST"@ != "PUT"@,
        "GET"@ != "PATCH"@,
        "GET"@ != "PUT"@,
        "PATCH"@ != "PUT"@,
{
    reveal_strlit("POST");
    reveal_strlit("GET");
    reveal_strlit("PATCH");
    reveal_strlit("PUT");
    assert("POST"@.len() == 4);
    assert("PATCH"@.len() == 5);
    assert("GET"@.len() == 3 && "GET"@[0] == 'G');
    assert("PUT"@.len() == 3 && "PUT"@[0] == 'P');
}

} // verus!
