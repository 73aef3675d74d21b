//! Forwarding: deriving the backend endpoint, shaping the outbound request,
//! and translating the backend's HTTP answer into the invocation's outcome.
//!
//! The actual POST is network I/O and stays with the host; this module fixes
//! everything around it: where to send, which Authorization value to attach,
//! how the client must be built, and what to make of the status and body that
//! come back — a verbatim passthrough of a successful JSON body, or a Smart
//! Home error envelope for any other status.

use vstd::prelude::*;

use crate::config::{client_settings, ClientSettings, Config, CONNECT_TIMEOUT_SECS, READ_TIMEOUT_SECS};
use crate::json::{str_of, Json};
use crate::strutil::strip_trailing_slashes;
use crate::validate::{
    credential_of, errors_agree, fallback_view, lemma_validate_deterministic, validate,
    validate_post, ValidationError,
};

verus! {

/// The fixed path appended to the backend root.
pub open spec fn api_path() -> Seq<char> {
    "/api/alexa/smart_home"@
}

/// The endpoint the directive is forwarded to: the base URL with trailing
/// slashes stripped and the fixed API path appended.
pub open spec fn endpoint_of(base: Seq<char>) -> Seq<char> {
    strip_trailing_slashes(base) + api_path()
}

#[verifier::external_type_specification]
#[verifier::external_body]
pub struct ExUrlParseError(url::ParseError);

/// Whether the `url` crate parses this text as an absolute URL.
pub uninterp spec fn url_parse_ok(s: Seq<char>) -> bool;

/// Whether the URL parsed from this text carries a host component; URLs such
/// as `data:` or `unix:` ones carry none.
pub uninterp spec fn url_host_ok(s: Seq<char>) -> bool;

/// Relies on url::Url::parse and url::Url::host_str: whether a text parses
/// as an absolute URL, and whether the URL parsed from it carries a host,
/// are both functions of the text alone.
#[verifier::external_body]
fn parse_base(s: &str) -> (r: Result<bool, url::ParseError>)
    ensures
        r is Ok <==> url_parse_ok(s@),
        r matches Ok(h) ==> h == url_host_ok(s@),
{
    url::Url::parse(s).map(|u| u.host_str().is_some())
}

/// Why the configured base URL was rejected; each rejection aborts the
/// invocation.
#[derive(PartialEq, Eq, Debug)]
pub enum BaseUrlError {
    /// The slash-stripped base URL does not parse as an absolute URL.
    Invalid,
    /// The base URL parses, but carries no host that could be resolved.
    MissingHost,
}

/// The diagnostic text the host surfaces for each base-URL rejection.
pub open spec fn base_url_message_of(e: BaseUrlError) -> Seq<char> {
    match e {
        BaseUrlError::Invalid => "cannot parse BASE_URL as an absolute URL"@,
        BaseUrlError::MissingHost => "cannot parse host part of BASE_URL"@,
    }
}

impl BaseUrlError {
    /// The diagnostic text the host surfaces for this rejection.
    pub fn message(&self) -> (r: String)
        ensures
            r@ == base_url_message_of(*self),
    {
        match self {
            BaseUrlError::Invalid => "cannot parse BASE_URL as an absolute URL".to_owned(),
            BaseUrlError::MissingHost => "cannot parse host part of BASE_URL".to_owned(),
        }
    }
}

/// Derives the backend endpoint from the configured base URL: trailing
/// slashes stripped, the fixed API path appended. It succeeds exactly when
/// the slash-stripped base parses as an absolute URL with a host, and each
/// rejection says exactly which of the two checks failed.
pub fn backend_endpoint(base_url: &str) -> (r: Result<String, BaseUrlError>)
    ensures
        r is Ok <==> (url_parse_ok(strip_trailing_slashes(base_url@)) && url_host_ok(
            strip_trailing_slashes(base_url@),
        )),
        r matches Ok(u) ==> u@ == endpoint_of(base_url@),
        (r == Err::<String, BaseUrlError>(BaseUrlError::Invalid)) <==> !url_parse_ok(
            strip_trailing_slashes(base_url@),
        ),
        (r == Err::<String, BaseUrlError>(BaseUrlError::MissingHost)) <==> (url_parse_ok(
            strip_trailing_slashes(base_url@),
        ) && !url_host_ok(strip_trailing_slashes(base_url@))),
{
    let trimmed = crate::strutil::strip_slashes(base_url);
    let has_host = match parse_base(trimmed) {
        Ok(h) => h,
        Err(_) => {
            return Err(BaseUrlError::Invalid);
        },
    };
    if !has_host {
        return Err(BaseUrlError::MissingHost);
    }
    let mut out = trimmed.to_owned();
    out.append("/api/alexa/smart_home");
    Ok(out)
}

/// The Authorization header value presented to the backend.
pub open spec fn bearer_of(token: Seq<char>) -> Seq<char> {
    "Bearer "@ + token
}

/// Builds the Authorization header value carrying the extracted credential.
pub fn bearer_header(token: &str) -> (r: String)
    ensures
        r@ == bearer_of(token@),
{
    let mut out = "Bearer ".to_owned();
    out.append(token);
    out
}

/// Whether the `serde_json` crate accepts this text as one JSON document.
pub uninterp spec fn json_parse_ok(s: Seq<char>) -> bool;

/// Relies on serde_json::from_str::<serde_json::Value>: whether a text is a
/// well-formed JSON document is a function of the text alone.
#[verifier::external_body]
fn json_document_ok(s: &str) -> (r: bool)
    ensures
        r == json_parse_ok(s@),
{
    serde_json::from_str::<serde_json::Value>(s).is_ok()
}

/// Whether this status reports success (any 2xx).
pub open spec fn is_success_status(status: u16) -> bool {
    200 <= status < 300
}

/// Whether this status reports a credential failure.
pub open spec fn is_credential_status(status: u16) -> bool {
    status == 401 || status == 403
}

/// The error envelope's `type` for a failed backend status.
pub open spec fn error_type_of(status: u16) -> Seq<char> {
    if is_credential_status(status) {
        "INVALID_AUTHORIZATION_CREDENTIAL"@
    } else {
        "INTERNAL_ERROR"@
    }
}

/// The Smart Home error envelope shape:
/// `{ "event": { "payload": { "type": etype, "message": message } } }`.
pub open spec fn is_error_envelope(j: Json, etype: Seq<char>, message: Seq<char>) -> bool {
    j matches Json::Obj(top) && top@.len() == 1 && top@[0].0@ == "event"@ && (top@[0].1 matches Json::Obj(ev)
        && ev@.len() == 1 && ev@[0].0@ == "payload"@ && (ev@[0].1 matches Json::Obj(pl)
        && pl@.len() == 2 && pl@[0].0@ == "type"@ && str_of(pl@[0].1) == Some(etype)
        && pl@[1].0@ == "message"@ && str_of(pl@[1].1) == Some(message)))
}

/// Builds the Smart Home error envelope for a failed backend status: 401 and
/// 403 classify as a credential failure, everything else as an internal
/// error; the message is the backend's raw body text.
pub fn error_envelope(status: u16, message: String) -> (j: Json)
    ensures
        is_error_envelope(j, error_type_of(status), message@),
{
    let etype: String = if status == 401 || status == 403 {
        "INVALID_AUTHORIZATION_CREDENTIAL".to_owned()
    } else {
        "INTERNAL_ERROR".to_owned()
    };
    let payload: Vec<(String, Json)> = vec![
        ("type".to_owned(), Json::Str(etype)),
        ("message".to_owned(), Json::Str(message)),
    ];
    let event_member: Vec<(String, Json)> = vec![("payload".to_owned(), Json::Obj(payload))];
    let top: Vec<(String, Json)> = vec![("event".to_owned(), Json::Obj(event_member))];
    Json::Obj(top)
}

/// The gateway's answer for one backend response.
#[derive(PartialEq, Eq, Debug)]
pub enum Reply {
    /// Backend success: the backend's body, a well-formed JSON document,
    /// passed through verbatim for the host to return.
    Document(String),
    /// Backend failure: the Smart Home error envelope to return instead —
    /// a successful result from the host's point of view.
    ErrorEnvelope(Json),
}

/// A fatal forwarding failure; the invocation aborts rather than answering.
#[derive(PartialEq, Eq, Debug)]
pub enum ForwardError {
    /// The backend reported success, but its body is not a JSON document.
    UnparseableSuccessBody,
}

/// Everything `map_response` promises: a successful status hands the body
/// through verbatim exactly when it is a JSON document and aborts otherwise,
/// and every other status yields the error envelope for that status with the
/// raw body as its message.
pub open spec fn map_response_post(
    status: u16,
    body: Seq<char>,
    r: Result<Reply, ForwardError>,
) -> bool {
    &&& ((is_success_status(status) && json_parse_ok(body)) <==> r matches Ok(Reply::Document(_)))
    &&& (r matches Ok(Reply::Document(d)) ==> d@ == body)
    &&& ((is_success_status(status) && !json_parse_ok(body)) <==> r == Err::<Reply, ForwardError>(
        ForwardError::UnparseableSuccessBody,
    ))
    &&& (!is_success_status(status) <==> (r matches Ok(Reply::ErrorEnvelope(env))
        && is_error_envelope(env, error_type_of(status), body)))
}

/// Translates one backend HTTP response into the invocation's outcome.
pub fn map_response(status: u16, body: String) -> (r: Result<Reply, ForwardError>)
    ensures
        map_response_post(status, body@, r),
{
    if 200 <= status && status < 300 {
        if json_document_ok(body.as_str()) {
            Ok(Reply::Document(body))
        } else {
            Err(ForwardError::UnparseableSuccessBody)
        }
    } else {
        Ok(Reply::ErrorEnvelope(error_envelope(status, body)))
    }
}

/// Everything the host needs to issue the one POST: the endpoint, the
/// Authorization value, and how to build the client. The body is the inbound
/// event itself, forwarded verbatim.
#[derive(PartialEq, Eq, Debug)]
pub struct OutboundRequest {
    pub url: String,
    pub authorization: String,
    pub settings: ClientSettings,
}

/// An invocation-fatal error raised before the POST is issued.
#[derive(PartialEq, Eq, Debug)]
pub enum GatewayError {
    Validation(ValidationError),
    BaseUrl(BaseUrlError),
}

/// The diagnostic text the host surfaces for each invocation-fatal error.
pub open spec fn gateway_message_of(e: GatewayError) -> Seq<char> {
    match e {
        GatewayError::Validation(v) => crate::validate::validation_message_of(v),
        GatewayError::BaseUrl(b) => base_url_message_of(b),
    }
}

impl GatewayError {
    /// The diagnostic text the host surfaces for this error.
    pub fn message(&self) -> (r: String)
        ensures
            r@ == gateway_message_of(*self),
    {
        match self {
            GatewayError::Validation(v) => v.message(),
            GatewayError::BaseUrl(b) => b.message(),
        }
    }
}

/// Everything `prepare` promises: it succeeds exactly when a credential can
/// be extracted and the slash-stripped base URL parses with a host, and then
/// the endpoint, Authorization value and client settings are exactly
/// determined; validation rejections surface exactly when no credential can
/// be extracted, and carry the reason `validate` reports; each base-URL
/// rejection says exactly which check failed.
pub open spec fn prepare_post(event: Json, cfg: Config, r: Result<OutboundRequest, GatewayError>) -> bool {
    let cred = credential_of(event, cfg.diagnostics, fallback_view(cfg.fallback_token));
    let stripped = strip_trailing_slashes(cfg.base_url@);
    &&& (r is Ok <==> (cred is Some && url_parse_ok(stripped) && url_host_ok(stripped)))
    &&& (r matches Ok(req) ==> (cred matches Some(t) && req.authorization@ == bearer_of(t)
        && req.url@ == endpoint_of(cfg.base_url@)
        && req.settings.connect_timeout_secs == CONNECT_TIMEOUT_SECS
        && req.settings.read_timeout_secs == READ_TIMEOUT_SECS
        && req.settings.accept_invalid_certs == cfg.insecure))
    &&& ((r matches Err(e) && e is Validation) <==> cred is None)
    &&& (r matches Err(GatewayError::Validation(e)) ==> validate_post(
        event,
        cfg.diagnostics,
        cfg.fallback_token,
        Err(e),
    ))
    &&& ((r == Err::<OutboundRequest, GatewayError>(GatewayError::BaseUrl(BaseUrlError::Invalid))) <==> (cred is Some
        && !url_parse_ok(stripped)))
    &&& ((r == Err::<OutboundRequest, GatewayError>(GatewayError::BaseUrl(BaseUrlError::MissingHost))) <==> (cred is Some
        && url_parse_ok(stripped) && !url_host_ok(stripped)))
}

/// Runs the whole pre-dispatch pipeline: validates the event, extracts the
/// credential, derives the backend endpoint, and fixes the client settings.
pub fn prepare(event: &Json, cfg: &Config) -> (r: Result<OutboundRequest, GatewayError>)
    ensures
        prepare_post(*event, *cfg, r),
{
    let token = match validate(event, cfg) {
        Ok(t) => t,
        Err(e) => {
            return Err(GatewayError::Validation(e));
        },
    };
    let url = match backend_endpoint(cfg.base_url.as_str()) {
        Ok(u) => u,
        Err(e) => {
            return Err(GatewayError::BaseUrl(e));
        },
    };
    let authorization = bearer_header(token.as_str());
    Ok(OutboundRequest { url, authorization, settings: client_settings(cfg) })
}

/// Law: statuses 401 and 403 both classify as a credential failure, and
/// every other status as an internal error.
pub proof fn lemma_error_classification()
    ensures
        error_type_of(401) == "INVALID_AUTHORIZATION_CREDENTIAL"@,
        error_type_of(403) == "INVALID_AUTHORIZATION_CREDENTIAL"@,
        error_type_of(401) == error_type_of(403),
        forall|s: u16| !is_credential_status(s) ==> error_type_of(s) == "INTERNAL_ERROR"@,
{
}

/// Law: the response translation is a function of the backend's status and
/// body alone. Two results admitted for the same response agree: passthrough
/// bodies are the same text, error envelopes carry the same classification
/// and message member for member, and fatal failures are the same failure.
pub proof fn lemma_map_response_deterministic(
    status: u16,
    body: Seq<char>,
    r1: Result<Reply, ForwardError>,
    r2: Result<Reply, ForwardError>,
)
    requires
        map_response_post(status, body, r1),
        map_response_post(status, body, r2),
    ensures
        r1 is Ok <==> r2 is Ok,
        r1 is Err ==> r1 == r2,
        r1 matches Ok(Reply::Document(d1)) ==> (r2 matches Ok(Reply::Document(d2)) ==> d1@
            == d2@),
        r1 matches Ok(Reply::ErrorEnvelope(e1)) ==> (r2 matches Ok(Reply::ErrorEnvelope(e2))
            ==> is_error_envelope(e1, error_type_of(status), body) && is_error_envelope(
            e2,
            error_type_of(status),
            body,
        )),
        r1 matches Ok(Reply::Document(_)) <==> r2 matches Ok(Reply::Document(_)),
{
}

/// Law: the pre-dispatch pipeline carries no state between calls. Two
/// results admitted for the same event and configuration agree: whether they
/// succeed, whether validation rejects and with which reason, which base-URL
/// check fails, and — on success — the request's endpoint, Authorization
/// value and client settings.
pub proof fn lemma_prepare_deterministic(
    event: Json,
    cfg: Config,
    r1: Result<OutboundRequest, GatewayError>,
    r2: Result<OutboundRequest, GatewayError>,
)
    requires
        prepare_post(event, cfg, r1),
        prepare_post(event, cfg, r2),
    ensures
        r1 is Ok <==> r2 is Ok,
        (r1 matches Err(e) && e is Validation) <==> (r2 matches Err(e) && e is Validation),
        r1 matches Err(GatewayError::Validation(e1)) ==> (r2 matches Err(
            GatewayError::Validation(e2),
        ) ==> errors_agree(e1, e2)),
        (r1 == Err::<OutboundRequest, GatewayError>(GatewayError::BaseUrl(BaseUrlError::Invalid))) <==> (r2
            == Err::<OutboundRequest, GatewayError>(GatewayError::BaseUrl(BaseUrlError::Invalid))),
        (r1 == Err::<OutboundRequest, GatewayError>(GatewayError::BaseUrl(BaseUrlError::MissingHost))) <==> (
        r2 == Err::<OutboundRequest, GatewayError>(GatewayError::BaseUrl(BaseUrlError::MissingHost))),
        r1 matches Ok(q1) ==> (r2 matches Ok(q2) ==> q1.url@ == q2.url@ && q1.authorization@
            == q2.authorization@ && q1.settings == q2.settings),
{
    match (r1, r2) {
        (Err(GatewayError::Validation(e1)), Err(GatewayError::Validation(e2))) => {
            lemma_validate_deterministic(
                event,
                cfg.diagnostics,
                cfg.fallback_token,
                Err(e1),
                Err(e2),
            );
        },
        _ => {},
    }
}

} // verus!
