//! What can go wrong between a command and its reply.

use vstd::prelude::*;
use vstd::std_specs::convert::FromSpecImpl;
use vstd::string::to_string_from_display_ensures;

verus! {

/// `reqwest`'s error, carried through as it is.
#[verifier::external_type_specification]
#[verifier::external_body]
pub struct ExTransportError(reqwest::Error);

/// `http`'s refusal of a header value, carried through as it is.
#[verifier::external_type_specification]
#[verifier::external_body]
pub struct ExInvalidHeaderValue(reqwest::header::InvalidHeaderValue);

/// A failure on the way to the settings endpoint.
#[derive(Debug)]
pub enum RequestError {
    /// The HTTP client could not be built, the request could not be sent or
    /// the answer could not be read.
    RequestError(reqwest::Error),
    /// A header value was refused: the token holds a byte that no header
    /// value may hold.
    HeaderParseError(reqwest::header::InvalidHeaderValue),
}

impl From<reqwest::Error> for RequestError {
    fn from(err: reqwest::Error) -> (error: RequestError) {
        RequestError::RequestError(err)
    }
}

impl FromSpecImpl<reqwest::Error> for RequestError {
    open spec fn obeys_from_spec() -> bool {
        true
    }

    open spec fn from_spec(err: reqwest::Error) -> RequestError {
        RequestError::RequestError(err)
    }
}

impl From<reqwest::header::InvalidHeaderValue> for RequestError {
    fn from(err: reqwest::header::InvalidHeaderValue) -> (error: RequestError) {
        RequestError::HeaderParseError(err)
    }
}

impl FromSpecImpl<reqwest::header::InvalidHeaderValue> for RequestError {
    open spec fn obeys_from_spec() -> bool {
        true
    }

    open spec fn from_spec(err: reqwest::header::InvalidHeaderValue) -> RequestError {
        RequestError::HeaderParseError(err)
    }
}

/// `Display` of `http`'s `InvalidHeaderValue`: one fixed sentence, whatever
/// the value that was refused.
#[verifier::external_body]
fn invalid_header_text(err: &reqwest::header::InvalidHeaderValue) -> (text: String)
    ensures
        text@ == "failed to parse header value"@,
{
    err.to_string()
}

impl RequestError {
    /// `text` is the sentence of this failure: its kind, a colon and what the
    /// failed part says of itself. A header that does not parse always says
    /// the same; a failed request says what its `Display` gives.
    pub open spec fn says(self, text: Seq<char>) -> bool {
        match self {
            RequestError::HeaderParseError(_) => text == "Header Parse Error: "@
                + "failed to parse header value"@,
            RequestError::RequestError(err) => exists|detail: String|
                to_string_from_display_ensures(&err, detail) && text == "Request Error: "@
                    + detail@,
        }
    }

    /// The sentence of this failure.
    pub fn message(&self) -> (text: String)
        ensures
            self.says(text@),
    {
        match self {
            RequestError::RequestError(err) => {
                let detail = err.to_string();
                "Request Error: ".to_owned().concat(detail.as_str())
            },
            RequestError::HeaderParseError(err) => {
                let detail = invalid_header_text(err);
                "Header Parse Error: ".to_owned().concat(detail.as_str())
            },
        }
    }
}

} // verus!
