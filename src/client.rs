//! The client handle: API-key resolution, request framing and the
//! classification of the server's reply.
use vstd::prelude::*;

use crate::emails::Emails;
use crate::error::{ErrorResponse, SendKitError};

verus! {

/// The HTTP client's error type, carried through unchanged.
#[verifier::external_type_specification]
#[verifier::external_body]
pub struct ExReqwestError(reqwest::Error);

/// The pooled HTTP client that performs the exchanges.
#[verifier::external_type_specification]
#[verifier::external_body]
pub struct ExReqwestClient(reqwest::Client);

/// The builder of an HTTP client.
#[verifier::external_type_specification]
#[verifier::external_body]
pub struct ExReqwestClientBuilder(reqwest::ClientBuilder);

/// Relies on reqwest::Client::builder: a builder with the default configuration.
pub assume_specification[ reqwest::Client::builder ]() -> reqwest::ClientBuilder;

/// Relies on reqwest::ClientBuilder::build: an HTTP client, or the error met
/// while setting up its TLS backend or resolver.
pub assume_specification[ reqwest::ClientBuilder::build ](builder: reqwest::ClientBuilder) -> Result<
    reqwest::Client,
    reqwest::Error,
>;

/// The base URL used when none is given.
pub open spec fn default_base_url() -> Seq<char> {
    "https://api.sendkit.com"@
}

/// An optional string's characters.
pub open spec fn opt_view(o: Option<&str>) -> Option<Seq<char>> {
    match o {
        Some(s) => Some(s@),
        None => None,
    }
}

/// The API key in force: the explicit key when it is non-empty, else the
/// environment's value when that is set and non-empty, else none.
pub open spec fn resolved_api_key(explicit: Seq<char>, env: Option<Seq<char>>) -> Option<Seq<char>> {
    if explicit.len() > 0 {
        Some(explicit)
    } else {
        match env {
            Some(e) if e.len() > 0 => Some(e),
            _ => None,
        }
    }
}

/// A non-empty explicit key is the key in force, whatever the environment holds.
pub proof fn lemma_explicit_key_wins(explicit: Seq<char>, env: Option<Seq<char>>)
    requires
        explicit.len() > 0,
    ensures
        resolved_api_key(explicit, env) == Some(explicit),
{
}

/// With an empty explicit key and no environment value there is no key.
pub proof fn lemma_no_key_without_env(explicit: Seq<char>)
    requires
        explicit.len() == 0,
    ensures
        resolved_api_key(explicit, None) is None,
{
}

/// With an empty explicit key, a non-empty environment value is the key in force.
pub proof fn lemma_env_key_fallback(explicit: Seq<char>, env: Seq<char>)
    requires
        explicit.len() == 0,
        env.len() > 0,
    ensures
        resolved_api_key(explicit, Some(env)) == Some(env),
{
}

/// Picks the API key: `explicit` when non-empty, else `env` (the value of
/// `SENDKIT_API_KEY`, if set) when non-empty; with neither it fails with
/// `MissingApiKey`.
pub fn resolve_api_key(explicit: &str, env: Option<&str>) -> (r: Result<String, SendKitError>)
    ensures
        match resolved_api_key(explicit@, opt_view(env)) {
            Some(k) => r matches Ok(s) && s@ == k,
            None => r matches Err(SendKitError::MissingApiKey),
        },
{
    if !explicit.is_empty() {
        return Ok(String::from_str(explicit));
    }
    match env {
        Some(e) => {
            if e.is_empty() {
                Err(SendKitError::MissingApiKey)
            } else {
                Ok(String::from_str(e))
            }
        },
        None => Err(SendKitError::MissingApiKey),
    }
}

/// A client of the email API.
pub struct SendKit {
    client: reqwest::Client,
    base_url: String,
    api_key: String,
    /// The emails API.
    pub emails: Emails,
}

/// A POST to perform: where, with which bearer credential, and the JSON body.
#[derive(Debug)]
pub struct PostRequest {
    pub url: String,
    /// The value of the `Authorization` header.
    pub authorization: String,
    pub body: String,
}

/// What to do with the body of a reply, once its status is known.
#[derive(Debug)]
pub enum ReplyAction {
    /// A 2xx status: decode the expected response.
    DecodeBody,
    /// Any other status: decode the error envelope.
    DecodeEnvelope,
}

/// A 2xx status.
pub open spec fn is_success_status(status: u16) -> bool {
    200 <= status <= 299
}

impl SendKit {
    /// The key sent as bearer token.
    pub closed spec fn api_key_view(&self) -> Seq<char> {
        self.api_key@
    }

    /// The URL that paths are appended to.
    pub closed spec fn base_url_view(&self) -> Seq<char> {
        self.base_url@
    }

    /// A client holds a non-empty key.
    pub open spec fn wf(&self) -> bool {
        self.api_key_view().len() > 0
    }

    /// A client for `api_key`, or for `env_api_key` (the value of
    /// `SENDKIT_API_KEY`, if set) when `api_key` is empty, talking to the
    /// default base URL. Fails with `MissingApiKey` when neither gives a key,
    /// and with `Http` only when the HTTP client cannot be set up.
    pub fn new(api_key: &str, env_api_key: Option<&str>) -> (r: Result<SendKit, SendKitError>)
        ensures
            match resolved_api_key(api_key@, opt_view(env_api_key)) {
                None => r matches Err(SendKitError::MissingApiKey),
                Some(k) => match r {
                    Ok(c) => c.wf() && c.api_key_view() == k && c.base_url_view() == default_base_url(),
                    Err(e) => e is Http,
                },
            },
    {
        let key = match resolve_api_key(api_key, env_api_key) {
            Ok(k) => k,
            Err(e) => return Err(e),
        };
        let client = match reqwest::Client::builder().build() {
            Ok(c) => c,
            Err(e) => return Err(SendKitError::Http(e)),
        };
        Ok(SendKit { client, base_url: String::from_str("https://api.sendkit.com"), api_key: key, emails: Emails })
    }

    /// As `new`, with `base_url` in place of the default; the key is resolved
    /// by the same rules.
    pub fn with_base_url(api_key: &str, base_url: &str, env_api_key: Option<&str>) -> (r: Result<
        SendKit,
        SendKitError,
    >)
        ensures
            match resolved_api_key(api_key@, opt_view(env_api_key)) {
                None => r matches Err(SendKitError::MissingApiKey),
                Some(k) => match r {
                    Ok(c) => c.wf() && c.api_key_view() == k && c.base_url_view() == base_url@,
                    Err(e) => e is Http,
                },
            },
    {
        let mut client = match SendKit::new(api_key, env_api_key) {
            Ok(c) => c,
            Err(e) => return Err(e),
        };
        client.base_url = String::from_str(base_url);
        Ok(client)
    }

    /// The key sent as bearer token.
    pub fn api_key(&self) -> (r: &str)
        ensures
            r@ == self.api_key_view(),
    {
        self.api_key.as_str()
    }

    /// The URL that paths are appended to.
    pub fn base_url(&self) -> (r: &str)
        ensures
            r@ == self.base_url_view(),
    {
        self.base_url.as_str()
    }

    /// The HTTP client that performs the exchanges.
    pub fn http_client(&self) -> &reqwest::Client {
        &self.client
    }

    /// The POST of `body` to `path`: the URL is the base URL followed by
    /// `path` verbatim, and the credential is `Bearer <api key>`.
    pub fn post_request(&self, path: &str, body: String) -> (r: PostRequest)
        ensures
            r.url@ == self.base_url_view() + path@,
            r.authorization@ == "Bearer "@ + self.api_key_view(),
            r.body@ == body@,
    {
        PostRequest {
            url: self.base_url.clone().concat(path),
            authorization: String::from_str("Bearer ").concat(self.api_key.as_str()),
            body,
        }
    }
}

/// What to decode once a reply's status is known: the expected response for
/// a 2xx status, the error envelope for any other.
pub fn reply_action(status: u16) -> (r: ReplyAction)
    ensures
        r is DecodeBody <==> is_success_status(status),
{
    if 200 <= status && status <= 299 {
        ReplyAction::DecodeBody
    } else {
        ReplyAction::DecodeEnvelope
    }
}

/// The outcome of a 2xx reply: the decoded response, or a transport error
/// when its body did not decode.
pub fn finish_success<T>(decoded: Result<T, reqwest::Error>) -> (r: Result<T, SendKitError>)
    ensures
        match decoded {
            Ok(v) => r == Ok::<T, SendKitError>(v),
            Err(e) => r == Err::<T, SendKitError>(SendKitError::Http(e)),
        },
{
    match decoded {
        Ok(v) => Ok(v),
        Err(e) => Err(SendKitError::Http(e)),
    }
}

/// The error of a non-2xx reply: the decoded envelope, or the fallback
/// envelope when the body was not one.
pub fn finish_failure(envelope: Option<ErrorResponse>) -> (r: SendKitError)
    ensures
        match envelope {
            Some(e) => r == SendKitError::Api(e),
            None => r matches SendKitError::Api(f) && f.name@ == "application_error"@
                && f.message@ == "Unknown error"@ && f.status_code is None,
        },
{
    match envelope {
        Some(e) => SendKitError::Api(e),
        None => SendKitError::Api(ErrorResponse::fallback()),
    }
}

} // verus!
