//! The client's fixed configuration and its error taxonomy.
//!
//! A client holds an API key and a base URL with trailing slashes
//! stripped, so joining an endpoint path never produces a double slash.
//! Every operation resolves to one of three error kinds: the transport
//! failed, the service answered with a non-success status, or a body
//! did not match its schema. For a non-success status the message comes
//! from the body's problem details when they parse (`detail` first, then
//! `title`, then the HTTP status line), and otherwise is the numeric
//! status code and the raw body.

use vstd::prelude::*;

use crate::json::Json;
use crate::responses::{
    decode_moderation_response, decode_problem_details, decode_usage_response, spec_decode_moderation,
    spec_decode_problem, spec_decode_usage, ModerationResponse, ModerationResponseV, UsageResponse,
    UsageResponseV,
};
use crate::status::{spec_status_line, status_line};
use crate::text::{decimal_string, spec_decimal};

verus! {

/// The service endpoint used when the caller names none.
pub open spec fn spec_default_base_url() -> Seq<char> {
    "https://api.safecomms.dev"@
}

/// The service endpoint used when the caller names none.
pub fn default_base_url() -> (r: &'static str)
    ensures
        r@ == spec_default_base_url(),
{
    "https://api.safecomms.dev"
}

/// The given characters with every trailing `/` removed.
pub open spec fn spec_strip_trailing_slashes(s: Seq<char>) -> Seq<char>
    decreases s.len(),
{
    if s.len() > 0 && s.last() == '/' {
        spec_strip_trailing_slashes(s.drop_last())
    } else {
        s
    }
}

/// A stripped base URL never ends in a slash.
pub proof fn lemma_strip_no_trailing_slash(s: Seq<char>)
    ensures
        spec_strip_trailing_slashes(s).len() > 0 ==> spec_strip_trailing_slashes(s).last() != '/',
    decreases s.len(),
{
    if s.len() > 0 && s.last() == '/' {
        lemma_strip_no_trailing_slash(s.drop_last());
    }
}

/// Joining a stripped base URL and an endpoint path that begins with a
/// single slash leaves exactly one slash at the join point, whatever the
/// base ended in.
pub proof fn lemma_join_single_slash(base: Seq<char>, path: Seq<char>)
    requires
        path.len() > 0,
        path[0] == '/',
        path.len() > 1 ==> path[1] != '/',
    ensures
        spec_strip_trailing_slashes(base).len() > 0 ==> (spec_strip_trailing_slashes(base)
            + path)[spec_strip_trailing_slashes(base).len() - 1] != '/',
        (spec_strip_trailing_slashes(base) + path)[spec_strip_trailing_slashes(base).len() as int]
            == '/',
        path.len() > 1 ==> (spec_strip_trailing_slashes(base) + path)[spec_strip_trailing_slashes(
            base,
        ).len() as int + 1] != '/',
{
    lemma_strip_no_trailing_slash(base);
}

/// Removes every trailing `/` from a base URL.
pub fn strip_trailing_slashes(s: &str) -> (r: String)
    ensures
        r@ == spec_strip_trailing_slashes(s@),
{
    let len = s.unicode_len();
    let mut end: usize = len;
    proof {
        assert(s@.take(len as int) =~= s@);
    }
    while end > 0 && s.get_char(end - 1) == '/'
        invariant
            end <= len,
            len == s@.len(),
            spec_strip_trailing_slashes(s@) == spec_strip_trailing_slashes(
                s@.take(end as int),
            ),
        decreases end,
    {
        proof {
            assert(s@.take(end as int).drop_last() =~= s@.take(end as int - 1));
            assert(s@.take(end as int).last() == s@[end as int - 1]);
        }
        end = end - 1;
    }
    proof {
        if end > 0 {
            assert(s@.take(end as int).last() == s@[end as int - 1]);
        }
        assert(spec_strip_trailing_slashes(s@.take(end as int)) == s@.take(end as int));
    }
    let r = s.substring_char(0, end);
    proof {
        assert(r@ =~= s@.take(end as int));
    }
    String::from_str(r)
}

/// The client's fixed configuration: an API key and a normalized base
/// URL. Construction does no validation and no network work; a bad key
/// or URL surfaces only when an operation runs.
#[derive(Clone, Debug)]
pub struct SafeCommsClient {
    pub api_key: String,
    pub base_url: String,
}

/// What an operation of this client fails with: the transport itself
/// failed, the service answered with a non-success status, or a value
/// did not match its schema.
#[derive(Clone, Debug)]
pub enum SafeCommsError {
    RequestError(String),
    ApiError(String),
    SerializationError(String),
}

/// The view of an error.
pub ghost enum SafeCommsErrorV {
    RequestError(Seq<char>),
    ApiError(Seq<char>),
    SerializationError(Seq<char>),
}

impl View for SafeCommsError {
    type V = SafeCommsErrorV;

    open spec fn view(&self) -> SafeCommsErrorV {
        match self {
            SafeCommsError::RequestError(m) => SafeCommsErrorV::RequestError(m@),
            SafeCommsError::ApiError(m) => SafeCommsErrorV::ApiError(m@),
            SafeCommsError::SerializationError(m) => SafeCommsErrorV::SerializationError(m@),
        }
    }
}

/// The short description of an error kind.
pub open spec fn spec_describe_error(e: SafeCommsErrorV) -> Seq<char> {
    match e {
        SafeCommsErrorV::RequestError(_) => "HTTP request failed"@,
        SafeCommsErrorV::ApiError(m) => "API error: "@ + m,
        SafeCommsErrorV::SerializationError(_) => "Serialization error"@,
    }
}

impl SafeCommsError {
    /// Renders the error the way the client reports it.
    pub fn describe(&self) -> (r: String)
        ensures
            r@ == spec_describe_error(self@),
    {
        match self {
            SafeCommsError::RequestError(_) => String::from_str("HTTP request failed"),
            SafeCommsError::ApiError(m) => String::from_str("API error: ").concat(m.as_str()),
            SafeCommsError::SerializationError(_) => String::from_str("Serialization error"),
        }
    }
}

impl SafeCommsClient {
    /// The base URL carries no trailing slash.
    pub open spec fn wf(self) -> bool {
        self.base_url@.len() > 0 ==> self.base_url@.last() != '/'
    }

    /// Builds a client from an API key and an optional base URL; absent,
    /// the default service endpoint is used. Trailing slashes are
    /// stripped from whichever base applies.
    pub fn new(api_key: String, base_url: Option<String>) -> (c: SafeCommsClient)
        ensures
            c.api_key == api_key,
            c.base_url@ == spec_strip_trailing_slashes(
                match base_url {
                    Some(b) => b@,
                    None => spec_default_base_url(),
                },
            ),
            c.wf(),
    {
        let base = match base_url {
            Some(b) => b,
            None => String::from_str(default_base_url()),
        };
        let stripped = strip_trailing_slashes(base.as_str());
        proof {
            lemma_strip_no_trailing_slash(base@);
        }
        SafeCommsClient { api_key, base_url: stripped }
    }

    /// The URL of the text moderation endpoint.
    pub fn moderation_text_url(&self) -> (r: String)
        ensures
            r@ == self.base_url@ + "/moderation/text"@,
    {
        self.base_url.clone().concat("/moderation/text")
    }

    /// The URL of the inline image moderation endpoint.
    pub fn moderation_image_url(&self) -> (r: String)
        ensures
            r@ == self.base_url@ + "/moderation/image"@,
    {
        self.base_url.clone().concat("/moderation/image")
    }

    /// The URL of the image upload endpoint.
    pub fn moderation_image_upload_url(&self) -> (r: String)
        ensures
            r@ == self.base_url@ + "/moderation/image/upload"@,
    {
        self.base_url.clone().concat("/moderation/image/upload")
    }

    /// The URL of the usage report endpoint.
    pub fn usage_url(&self) -> (r: String)
        ensures
            r@ == self.base_url@ + "/usage"@,
    {
        self.base_url.clone().concat("/usage")
    }

    /// The value of the authorization header every operation sends.
    pub fn auth_header_value(&self) -> (r: String)
        ensures
            r@ == "Bearer "@ + self.api_key@,
    {
        String::from_str("Bearer ").concat(self.api_key.as_str())
    }
}

/// Every URL a well-formed client builds has exactly one slash at the
/// point where the endpoint path joins the base, whatever the caller's
/// base URL ended in.
pub proof fn lemma_client_urls_single_slash(c: SafeCommsClient, path: Seq<char>)
    requires
        c.wf(),
        path == "/moderation/text"@ || path == "/moderation/image"@ || path
            == "/moderation/image/upload"@ || path == "/usage"@,
    ensures
        c.base_url@.len() > 0 ==> (c.base_url@ + path)[c.base_url@.len() - 1] != '/',
        (c.base_url@ + path)[c.base_url@.len() as int] == '/',
        (c.base_url@ + path)[c.base_url@.len() as int + 1] != '/',
{
    reveal_strlit("/moderation/text");
    reveal_strlit("/moderation/image");
    reveal_strlit("/moderation/image/upload");
    reveal_strlit("/usage");
}

/// Whether a status code is in the success range.
pub open spec fn spec_is_success(status: u16) -> bool {
    200 <= status < 300
}

/// Whether a status code is in the success range.
pub fn is_success_status(status: u16) -> (r: bool)
    ensures
        r == spec_is_success(status),
{
    200 <= status && status < 300
}

/// The JSON tree behind an optional reference.
pub open spec fn opt_json(p: Option<&Json>) -> Option<Json> {
    match p {
        Some(j) => Some(*j),
        None => None,
    }
}

/// The message reported for a response with a non-success status, given
/// the body's text and its JSON tree when the body parsed at all:
/// problem `detail` first, then `title`, then the HTTP status line; when
/// the body is not a problem object, the numeric status code and the raw
/// body.
pub open spec fn spec_failure_message(status: u16, body: Seq<char>, parsed: Option<Json>) -> Seq<
    char,
> {
    match parsed {
        Some(j) => match spec_decode_problem(j) {
            Some(p) => match p.detail {
                Some(d) => d,
                None => match p.title {
                    Some(t) => t,
                    None => spec_status_line(status),
                },
            },
            None => spec_decimal(status as int) + " - "@ + body,
        },
        None => spec_decimal(status as int) + " - "@ + body,
    }
}

fn status_body_message(status: u16, body: &str) -> (r: String)
    ensures
        r@ == spec_decimal(status as int) + " - "@ + body@,
{
    decimal_string(status).concat(" - ").concat(body)
}

/// The error for a response with a non-success status. `parsed` is the
/// body's JSON tree when the body is well-formed JSON, and `None` when
/// it is not.
pub fn api_failure(status: u16, body: &str, parsed: Option<&Json>) -> (e: SafeCommsError)
    ensures
        e@ == SafeCommsErrorV::ApiError(spec_failure_message(status, body@, opt_json(parsed))),
{
    let message = match parsed {
        Some(j) => match decode_problem_details(j) {
            Some(p) => match p.detail {
                Some(d) => d,
                None => match p.title {
                    Some(t) => t,
                    None => status_line(status),
                },
            },
            None => status_body_message(status, body),
        },
        None => status_body_message(status, body),
    };
    SafeCommsError::ApiError(message)
}

/// The error for a success response whose body does not match the
/// expected schema (or is not well-formed JSON at all).
pub fn deserialization_error() -> (e: SafeCommsError)
    ensures
        e@ == SafeCommsErrorV::SerializationError("invalid response body"@),
{
    SafeCommsError::SerializationError(String::from_str("invalid response body"))
}

/// The error for an upload whose file could not be read; no request is
/// sent in that case.
pub fn file_read_error(detail: &str) -> (e: SafeCommsError)
    ensures
        e@ == SafeCommsErrorV::ApiError("Failed to read file: "@ + detail@),
{
    SafeCommsError::ApiError(String::from_str("Failed to read file: ").concat(detail))
}

/// The error for a request the transport could not carry out.
pub fn request_error(detail: &str) -> (e: SafeCommsError)
    ensures
        e@ == SafeCommsErrorV::RequestError(detail@),
{
    SafeCommsError::RequestError(String::from_str(detail))
}

/// The view of a moderation outcome.
pub open spec fn view_moderation_outcome(r: Result<ModerationResponse, SafeCommsError>) -> Result<
    ModerationResponseV,
    SafeCommsErrorV,
> {
    match r {
        Ok(m) => Ok(m@),
        Err(e) => Err(e@),
    }
}

/// What a moderation call returns once the response's status, body text
/// and body tree are known: on a success status the decoded response,
/// or the schema error; otherwise the resolved API error.
pub open spec fn spec_moderation_outcome(
    status: u16,
    body: Seq<char>,
    parsed: Option<Json>,
) -> Result<ModerationResponseV, SafeCommsErrorV> {
    if spec_is_success(status) {
        match parsed {
            Some(j) => match spec_decode_moderation(j) {
                Some(m) => Ok(m),
                None => Err(SafeCommsErrorV::SerializationError("invalid response body"@)),
            },
            None => Err(SafeCommsErrorV::SerializationError("invalid response body"@)),
        }
    } else {
        Err(SafeCommsErrorV::ApiError(spec_failure_message(status, body, parsed)))
    }
}

/// Turns a moderation response, as it came off the wire, into the call's
/// result. `status` is the numeric status code, `body` the body's text
/// and `parsed` its JSON tree when the text is well-formed JSON.
pub fn moderation_outcome(status: u16, body: &str, parsed: Option<&Json>) -> (r: Result<
    ModerationResponse,
    SafeCommsError,
>)
    ensures
        view_moderation_outcome(r) == spec_moderation_outcome(status, body@, opt_json(parsed)),
{
    if is_success_status(status) {
        match parsed {
            Some(j) => match decode_moderation_response(j) {
                Some(m) => Ok(m),
                None => Err(deserialization_error()),
            },
            None => Err(deserialization_error()),
        }
    } else {
        Err(api_failure(status, body, parsed))
    }
}

/// The view of a usage outcome.
pub open spec fn view_usage_outcome(r: Result<UsageResponse, SafeCommsError>) -> Result<
    UsageResponseV,
    SafeCommsErrorV,
> {
    match r {
        Ok(u) => Ok(u@),
        Err(e) => Err(e@),
    }
}

/// What a usage call returns once the response's status, body text and
/// body tree are known.
pub open spec fn spec_usage_outcome(status: u16, body: Seq<char>, parsed: Option<Json>) -> Result<
    UsageResponseV,
    SafeCommsErrorV,
> {
    if spec_is_success(status) {
        match parsed {
            Some(j) => match spec_decode_usage(j) {
                Some(u) => Ok(u),
                None => Err(SafeCommsErrorV::SerializationError("invalid response body"@)),
            },
            None => Err(SafeCommsErrorV::SerializationError("invalid response body"@)),
        }
    } else {
        Err(SafeCommsErrorV::ApiError(spec_failure_message(status, body, parsed)))
    }
}

/// Turns a usage response, as it came off the wire, into the call's
/// result; the arguments are as for a moderation outcome.
pub fn usage_outcome(status: u16, body: &str, parsed: Option<&Json>) -> (r: Result<
    UsageResponse,
    SafeCommsError,
>)
    ensures
        view_usage_outcome(r) == spec_usage_outcome(status, body@, opt_json(parsed)),
{
    if is_success_status(status) {
        match parsed {
            Some(j) => match decode_usage_response(j) {
                Some(u) => Ok(u),
                None => Err(deserialization_error()),
            },
            None => Err(deserialization_error()),
        }
    } else {
        Err(api_failure(status, body, parsed))
    }
}

} // verus!
