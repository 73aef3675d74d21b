//! Directive validation and credential extraction.
//!
//! One inbound event is checked against the Smart Home contract: the
//! `directive` member must be present, `directive.header.payloadVersion`
//! must be exactly the string `"3"`, an authorization scope is looked up
//! through an ordered three-path fallback, its `type` must be exactly
//! `BearerToken`, and the credential is its `token` — or, only under
//! verbose diagnostics, the configured fallback token.

use vstd::prelude::*;

use crate::config::Config;
use crate::json::{spec_get, str_of, Json};

verus! {

/// Why validation rejected an event; each rejection aborts the invocation.
#[derive(PartialEq, Eq, Debug)]
pub enum ValidationError {
    /// The event has no (or a null) `directive` member.
    MissingDirective,
    /// `directive.header.payloadVersion` is not the string `"3"`; `got`
    /// carries the offending version text (empty when it was no string).
    UnsupportedVersion { got: String },
    /// No scope at `directive.endpoint.scope`, `directive.payload.grantee`
    /// or `directive.payload.scope`.
    MissingScope,
    /// The resolved scope's `type` is not exactly `BearerToken`.
    UnsupportedScopeType,
    /// The scope carries no token and diagnostics mode is off.
    MissingToken,
    /// The scope carries no token, diagnostics mode is on, but no fallback
    /// token is configured.
    MissingFallbackToken,
}

/// The diagnostic text the host surfaces for each rejection.
pub open spec fn validation_message_of(e: ValidationError) -> Seq<char> {
    match e {
        ValidationError::MissingDirective => "Malformed request - missing directive"@,
        ValidationError::UnsupportedVersion { got } => "Only payloadVersion == \"3\" is supported, got "@
            + got@,
        ValidationError::MissingScope => "Malformed request - missing one between endpoint.scope, payload.grantee, or payload.scope"@,
        ValidationError::UnsupportedScopeType => "Malformed request - endpoint.scope.type only supports BearerToken"@,
        ValidationError::MissingToken => "Malformed request - missing auth token"@,
        ValidationError::MissingFallbackToken => "No token found in event, please provide a LONG_LIVED_ACCESS_TOKEN instead"@,
    }
}

impl ValidationError {
    /// The diagnostic text the host surfaces for this rejection.
    pub fn message(&self) -> (r: String)
        ensures
            r@ == validation_message_of(*self),
    {
        match self {
            ValidationError::MissingDirective => "Malformed request - missing directive".to_owned(),
            ValidationError::UnsupportedVersion { got } => {
                let mut out = "Only payloadVersion == \"3\" is supported, got ".to_owned();
                out.append(got.as_str());
                out
            },
            ValidationError::MissingScope => "Malformed request - missing one between endpoint.scope, payload.grantee, or payload.scope".to_owned(),
            ValidationError::UnsupportedScopeType => "Malformed request - endpoint.scope.type only supports BearerToken".to_owned(),
            ValidationError::MissingToken => "Malformed request - missing auth token".to_owned(),
            ValidationError::MissingFallbackToken => "No token found in event, please provide a LONG_LIVED_ACCESS_TOKEN instead".to_owned(),
        }
    }
}

/// The event's `directive` member.
pub open spec fn directive_of(event: Json) -> Json {
    spec_get(event, "directive"@)
}

/// The text of `directive.header.payloadVersion`, when it is a string.
pub open spec fn version_of(event: Json) -> Option<Seq<char>> {
    str_of(spec_get(spec_get(directive_of(event), "header"@), "payloadVersion"@))
}

/// The version text validation reports for an unsupported version: the
/// string itself, or empty when the version was absent or no string.
pub open spec fn version_text_of(event: Json) -> Seq<char> {
    match version_of(event) {
        Some(v) => v,
        None => Seq::<char>::empty(),
    }
}

/// The scope candidate at `directive.endpoint.scope`.
pub open spec fn endpoint_scope_of(event: Json) -> Json {
    spec_get(spec_get(directive_of(event), "endpoint"@), "scope"@)
}

/// The scope candidate at `directive.payload.grantee`.
pub open spec fn grantee_scope_of(event: Json) -> Json {
    spec_get(spec_get(directive_of(event), "payload"@), "grantee"@)
}

/// The scope candidate at `directive.payload.scope`.
pub open spec fn payload_scope_of(event: Json) -> Json {
    spec_get(spec_get(directive_of(event), "payload"@), "scope"@)
}

/// The authorization scope: the first non-null candidate, in the fixed
/// order endpoint scope, payload grantee, payload scope.
pub open spec fn scope_of(event: Json) -> Json {
    if !(endpoint_scope_of(event) is Null) {
        endpoint_scope_of(event)
    } else if !(grantee_scope_of(event) is Null) {
        grantee_scope_of(event)
    } else {
        payload_scope_of(event)
    }
}

/// The resolved scope's `type` text, when it is a string.
pub open spec fn scope_type_of(event: Json) -> Option<Seq<char>> {
    str_of(spec_get(scope_of(event), "type"@))
}

/// The resolved scope's `token` text, when it is a string.
pub open spec fn token_of(event: Json) -> Option<Seq<char>> {
    str_of(spec_get(scope_of(event), "token"@))
}

/// Whether the event passes every structural check: directive present,
/// version exactly `"3"`, a scope found, and its type exactly `BearerToken`.
pub open spec fn structure_ok(event: Json) -> bool {
    &&& !(directive_of(event) is Null)
    &&& version_of(event) == Some("3"@)
    &&& !(scope_of(event) is Null)
    &&& scope_type_of(event) == Some("BearerToken"@)
}

/// The credential validation extracts, when it extracts one: the scope's own
/// token always wins; only when it is absent and diagnostics mode is on does
/// the configured fallback stand in.
pub open spec fn credential_of(event: Json, diagnostics: bool, fallback: Option<Seq<char>>) -> Option<
    Seq<char>,
> {
    if !structure_ok(event) {
        None
    } else {
        match token_of(event) {
            Some(t) => Some(t),
            None => if diagnostics {
                fallback
            } else {
                None
            },
        }
    }
}

/// The character content of an optional configured token.
pub open spec fn fallback_view(fallback: Option<String>) -> Option<Seq<char>> {
    match fallback {
        Some(f) => Some(f@),
        None => None,
    }
}

/// Everything `validate` promises of its result: exactly when it succeeds,
/// which credential it hands out, and on exactly which events each rejection
/// is reported.
pub open spec fn validate_post(
    event: Json,
    diagnostics: bool,
    fallback: Option<String>,
    r: Result<String, ValidationError>,
) -> bool {
    let cred = credential_of(event, diagnostics, fallback_view(fallback));
    &&& (r is Ok <==> cred is Some)
    &&& (r matches Ok(t) ==> cred == Some(t@))
    &&& ((r matches Err(e) && e is MissingDirective) <==> directive_of(event) is Null)
    &&& ((r matches Err(e) && e is UnsupportedVersion) <==> (!(directive_of(event) is Null)
        && version_of(event) != Some("3"@)))
    &&& (r matches Err(ValidationError::UnsupportedVersion { got }) ==> got@ == version_text_of(
        event,
    ))
    &&& ((r matches Err(e) && e is MissingScope) <==> (!(directive_of(event) is Null)
        && version_of(event) == Some("3"@) && scope_of(event) is Null))
    &&& ((r matches Err(e) && e is UnsupportedScopeType) <==> (!(directive_of(event) is Null)
        && version_of(event) == Some("3"@) && !(scope_of(event) is Null) && scope_type_of(event)
        != Some("BearerToken"@)))
    &&& ((r matches Err(e) && e is MissingToken) <==> (structure_ok(event) && token_of(event)
        is None && !diagnostics))
    &&& ((r matches Err(e) && e is MissingFallbackToken) <==> (structure_ok(event) && token_of(
        event,
    ) is None && diagnostics && fallback is None))
}

/// Validates one inbound event against the Smart Home contract and extracts
/// the bearer credential. The event itself is never modified: on success it
/// is forwarded to the backend exactly as it arrived.
pub fn validate(event: &Json, cfg: &Config) -> (r: Result<String, ValidationError>)
    ensures
        validate_post(*event, cfg.diagnostics, cfg.fallback_token, r),
{
    let directive = event.member("directive");
    if directive.is_null() {
        return Err(ValidationError::MissingDirective);
    }
    let version = directive.member("header").member("payloadVersion").as_str();
    let version_ok = match version {
        Some(v) => crate::strutil::str_eq(v.as_str(), "3"),
        None => false,
    };
    if !version_ok {
        let got = match version {
            Some(v) => v.clone(),
            None => String::new(),
        };
        return Err(ValidationError::UnsupportedVersion { got });
    }
    let mut scope = directive.member("endpoint").member("scope");
    if scope.is_null() {
        scope = directive.member("payload").member("grantee");
    }
    if scope.is_null() {
        scope = directive.member("payload").member("scope");
    }
    if scope.is_null() {
        return Err(ValidationError::MissingScope);
    }
    let type_ok = match scope.member("type").as_str() {
        Some(t) => crate::strutil::str_eq(t.as_str(), "BearerToken"),
        None => false,
    };
    if !type_ok {
        return Err(ValidationError::UnsupportedScopeType);
    }
    match scope.member("token").as_str() {
        Some(t) => Ok(t.clone()),
        None => {
            if cfg.diagnostics {
                match &cfg.fallback_token {
                    Some(f) => Ok(f.clone()),
                    None => Err(ValidationError::MissingFallbackToken),
                }
            } else {
                Err(ValidationError::MissingToken)
            }
        },
    }
}

/// Law: scope resolution is deterministic and ordered. A scope at
/// `directive.endpoint.scope` wins over one at `directive.payload.grantee`,
/// which in turn wins over one at `directive.payload.scope`.
pub proof fn lemma_scope_resolution_order(event: Json)
    ensures
        !(endpoint_scope_of(event) is Null) ==> scope_of(event) == endpoint_scope_of(event),
        (endpoint_scope_of(event) is Null && !(grantee_scope_of(event) is Null)) ==> scope_of(event)
            == grantee_scope_of(event),
        (endpoint_scope_of(event) is Null && grantee_scope_of(event) is Null) ==> scope_of(event)
            == payload_scope_of(event),
{
}

/// Law: a token carried by the scope is used verbatim, whatever the
/// diagnostics mode and whatever fallback credential is configured.
pub proof fn lemma_scope_token_wins(event: Json, diagnostics: bool, fallback: Option<Seq<char>>)
    requires
        structure_ok(event),
        token_of(event) is Some,
    ensures
        credential_of(event, diagnostics, fallback) == token_of(event),
{
}

/// Law: with diagnostics mode off, a configured fallback credential is never
/// used: an event whose scope carries no token yields no credential at all,
/// so validation rejects it.
pub proof fn lemma_no_fallback_without_diagnostics(event: Json, fallback: Option<Seq<char>>)
    requires
        token_of(event) is None,
    ensures
        credential_of(event, false, fallback) is None,
{
}

/// Whether two rejections agree: the same kind, and for an unsupported
/// version the same reported version text.
pub open spec fn errors_agree(a: ValidationError, b: ValidationError) -> bool {
    &&& (a is MissingDirective <==> b is MissingDirective)
    &&& (a is UnsupportedVersion <==> b is UnsupportedVersion)
    &&& (a is MissingScope <==> b is MissingScope)
    &&& (a is UnsupportedScopeType <==> b is UnsupportedScopeType)
    &&& (a is MissingToken <==> b is MissingToken)
    &&& (a is MissingFallbackToken <==> b is MissingFallbackToken)
    &&& (a matches ValidationError::UnsupportedVersion { got: g1 } ==> (b matches ValidationError::UnsupportedVersion { got: g2 } ==> g1@ == g2@))
}

/// Law: validation is a function of the event and the configuration alone;
/// it carries no state between calls, so any two results its contract admits
/// for the same input agree on every observable part.
pub proof fn lemma_validate_deterministic(
    event: Json,
    diagnostics: bool,
    fallback: Option<String>,
    r1: Result<String, ValidationError>,
    r2: Result<String, ValidationError>,
)
    requires
        validate_post(event, diagnostics, fallback, r1),
        validate_post(event, diagnostics, fallback, r2),
    ensures
        r1 is Ok <==> r2 is Ok,
        r1 matches Ok(t1) ==> (r2 matches Ok(t2) ==> t1@ == t2@),
        r1 matches Err(e1) ==> (r2 matches Err(e2) ==> errors_agree(e1, e2)),
{
}

} // verus!
