//! The API client: holds the credential, builds the one HTTP request for
//! a descriptor, and interprets the one HTTP response. The network call
//! itself stands between the two and is the embedding program's.

use vstd::prelude::*;

use crate::args::RequestDescriptor;
use crate::errors::{ClientError, Failure};
use crate::jsonio::{json_parsed, parse_json};
use crate::jsontext::{body_text, render_body};

verus! {

/// The fixed completion endpoint URL.
pub open spec fn api_endpoint_text() -> Seq<char> {
    "https://api.openai.com/v1/completions"@
}

/// Returns the fixed completion endpoint URL.
pub fn api_endpoint() -> (r: &'static str)
    ensures
        r@ == api_endpoint_text(),
{
    "https://api.openai.com/v1/completions"
}

/// One HTTP request, ready to send: the URL, the two header values, the
/// body text.
pub struct HttpRequest {
    pub url: String,
    pub content_type: String,
    pub authorization: String,
    pub body: String,
}

/// The API client. It owns the bearer credential for its lifetime and
/// performs the compute side of exactly one exchange.
pub struct Client {
    api_key: String,
}

impl Client {
    /// The credential the client was built with.
    pub closed spec fn key(&self) -> Seq<char> {
        self.api_key@
    }

    /// Builds a client from the credential as read from the environment
    /// (`None` when the variable was unset). Fails exactly when the
    /// credential is absent, with `MissingCredential`.
    pub fn new(credential: Option<String>) -> (r: Result<Client, ClientError>)
        ensures
            match r {
                Ok(c) => credential matches Some(k) && c.key() == k@,
                Err(e) => credential is None && e is MissingCredential,
            },
    {
        match credential {
            Some(api_key) => Ok(Client { api_key }),
            None => Err(ClientError::MissingCredential),
        }
    }

    /// Builds the one HTTP request for `d`: the fixed endpoint URL, the
    /// JSON content type, the bearer authorization built from the stored
    /// credential, and the canonical JSON body for `d`.
    pub fn build_request(&self, d: &RequestDescriptor) -> (r: HttpRequest)
        ensures
            r.url@ == api_endpoint_text(),
            r.content_type@ == "application/json"@,
            r.authorization@ == "Bearer "@ + self.key(),
            r.body@ == body_text(d@),
    {
        let mut authorization = String::from_str("Bearer ");
        authorization.append(self.api_key.as_str());
        HttpRequest {
            url: String::from_str(api_endpoint()),
            content_type: String::from_str("application/json"),
            authorization,
            body: render_body(d),
        }
    }

    /// Interprets the one HTTP response: returns the parsed body exactly
    /// when the status is in the 2xx range and the body is well-formed
    /// JSON, and the value returned is that parse, unmodified. Otherwise
    /// the exchange failed: with the status when it is not 2xx, else with
    /// the decode error.
    pub fn decode_response(&self, status: u16, body: &[u8]) -> (r: Result<
        serde_json::Value,
        ClientError,
    >)
        ensures
            r is Ok <==> (200 <= status < 300 && json_parsed(body@) is Some),
            r is Ok ==> r->Ok_0 == json_parsed(body@)->Some_0,
            !(200 <= status < 300) ==> r == Err::<serde_json::Value, ClientError>(
                ClientError::RequestFailed(Failure::Status(status)),
            ),
            200 <= status < 300 && json_parsed(body@) is None ==> (r->Err_0 matches
                ClientError::RequestFailed(Failure::Decode(_))),
    {
        if !(200 <= status && status < 300) {
            return Err(ClientError::RequestFailed(Failure::Status(status)));
        }
        match parse_json(body) {
            Ok(v) => Ok(v),
            Err(e) => Err(ClientError::RequestFailed(Failure::Decode(e))),
        }
    }
}

} // verus!
