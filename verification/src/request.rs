//! One outbound call, and the answer to it, as plain values.

use crate::config::Config;
use crate::error::RequestError;
use crate::header_set::{header_set, header_text_ok, header_values, headers};
use crate::json::json_of;
use crate::patch::{SettingsPatch, SettingsPatchView};
use vstd::prelude::*;

verus! {

/// The HTTP method of an outbound call.
#[derive(Clone, Copy, Debug, PartialEq, Eq, Structural)]
pub enum Method {
    Patch,
    Post,
}

/// Everything the sender needs for one call: where it goes, how, with which
/// headers and with which JSON body.
#[derive(Debug)]
pub struct OutboundRequest {
    pub method: Method,
    pub url: String,
    pub headers: reqwest::header::HeaderMap,
    pub body: serde_json::Value,
}

impl OutboundRequest {
    /// The request goes to `url` by `method`, carries the header set of
    /// `token` and asks for `patch`.
    pub open spec fn carries(
        self,
        method: Method,
        url: Seq<char>,
        token: Seq<char>,
        patch: SettingsPatchView,
    ) -> bool {
        &&& self.method == method
        &&& self.url@ == url
        &&& header_values(self.headers) == header_set(token)
        &&& json_of(self.body) == patch.json()
    }

    /// Prepares the call that asks the endpoint of `config` for `patch`.
    ///
    /// It fails exactly when the token of `config` cannot stand in a header.
    pub fn new(method: Method, config: &Config, patch: &SettingsPatch) -> (prepared: Result<OutboundRequest, RequestError>)
        ensures
            prepared is Ok <==> header_text_ok(config.token@),
            prepared matches Ok(request) ==> request.carries(
                method,
                config.url@,
                config.token@,
                patch@,
            ),
            prepared matches Err(err) ==> err is HeaderParseError,
    {
        match headers(config.token.as_str()) {
            Ok(headers) => Ok(
                OutboundRequest { method, url: config.url.clone(), headers, body: patch.to_json() },
            ),
            Err(err) => Err(err),
        }
    }
}

/// The answer of the platform: its status code and its body as it came.
#[derive(Clone, Debug, PartialEq, Eq)]
pub struct Response {
    pub status: u16,
    pub body: String,
}

impl Response {
    /// The platform reports success with a status from 200 to 299.
    pub open spec fn succeeded(self) -> bool {
        200 <= self.status < 300
    }

    /// Whether the platform reported success.
    pub fn is_success(&self) -> (success: bool)
        ensures
            success == self.succeeded(),
    {
        200 <= self.status && self.status < 300
    }
}

} // verus!
