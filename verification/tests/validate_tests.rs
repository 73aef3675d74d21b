use alexa_gateway::config::Config;
use alexa_gateway::json::Json;
use alexa_gateway::validate::{validate, ValidationError};

fn s(text: &str) -> String {
    text.to_string()
}

fn obj(entries: Vec<(&str, Json)>) -> Json {
    Json::Obj(entries.into_iter().map(|(k, v)| (s(k), v)).collect())
}

fn scope(scope_type: &str, token: Option<&str>) -> Json {
    let mut entries = vec![("type", Json::Str(s(scope_type)))];
    if let Some(t) = token {
        entries.push(("token", Json::Str(s(t))));
    }
    obj(entries)
}

fn event_with_endpoint_scope(version: Json, sc: Json) -> Json {
    obj(vec![(
        "directive",
        obj(vec![
            ("header", obj(vec![("payloadVersion", version)])),
            ("endpoint", obj(vec![("scope", sc)])),
        ]),
    )])
}

fn cfg(diagnostics: bool, fallback: Option<&str>) -> Config {
    Config {
        base_url: s("https://backend.example"),
        fallback_token: fallback.map(s),
        insecure: false,
        diagnostics,
    }
}

#[test]
fn missing_directive_fails() {
    let empty = obj(vec![]);
    assert_eq!(validate(&empty, &cfg(false, None)), Err(ValidationError::MissingDirective));

    let unrelated = obj(vec![
        ("payload", obj(vec![("scope", scope("BearerToken", Some("abc")))])),
        ("header", obj(vec![("payloadVersion", Json::Str(s("3")))])),
    ]);
    assert_eq!(validate(&unrelated, &cfg(true, Some("zzz"))), Err(ValidationError::MissingDirective));

    let null_directive = obj(vec![("directive", Json::Null)]);
    assert_eq!(validate(&null_directive, &cfg(false, None)), Err(ValidationError::MissingDirective));

    let non_object = Json::Str(s("directive"));
    assert_eq!(validate(&non_object, &cfg(false, None)), Err(ValidationError::MissingDirective));
}

#[test]
fn unsupported_version_rejected() {
    let wrong_text = event_with_endpoint_scope(Json::Str(s("3.0")), scope("BearerToken", Some("abc")));
    assert_eq!(
        validate(&wrong_text, &cfg(false, None)),
        Err(ValidationError::UnsupportedVersion { got: s("3.0") })
    );

    let numeric = event_with_endpoint_scope(Json::Num(s("3")), scope("BearerToken", Some("abc")));
    assert_eq!(
        validate(&numeric, &cfg(false, None)),
        Err(ValidationError::UnsupportedVersion { got: s("") })
    );

    let absent = obj(vec![(
        "directive",
        obj(vec![("endpoint", obj(vec![("scope", scope("BearerToken", Some("abc")))]))]),
    )]);
    assert_eq!(
        validate(&absent, &cfg(false, None)),
        Err(ValidationError::UnsupportedVersion { got: s("") })
    );
}

#[test]
fn exact_version_accepted() {
    let event = event_with_endpoint_scope(Json::Str(s("3")), scope("BearerToken", Some("abc")));
    assert_eq!(validate(&event, &cfg(false, None)), Ok(s("abc")));
}

#[test]
fn endpoint_scope_wins_over_grantee() {
    let event = obj(vec![(
        "directive",
        obj(vec![
            ("header", obj(vec![("payloadVersion", Json::Str(s("3")))])),
            ("endpoint", obj(vec![("scope", scope("BearerToken", Some("from-endpoint")))])),
            ("payload", obj(vec![("grantee", scope("BearerToken", Some("from-grantee")))])),
        ]),
    )]);
    assert_eq!(validate(&event, &cfg(false, None)), Ok(s("from-endpoint")));
}

#[test]
fn grantee_wins_over_payload_scope() {
    let event = obj(vec![(
        "directive",
        obj(vec![
            ("header", obj(vec![("payloadVersion", Json::Str(s("3")))])),
            (
                "payload",
                obj(vec![
                    ("grantee", scope("BearerToken", Some("from-grantee"))),
                    ("scope", scope("BearerToken", Some("from-payload"))),
                ]),
            ),
        ]),
    )]);
    assert_eq!(validate(&event, &cfg(false, None)), Ok(s("from-grantee")));
}

#[test]
fn payload_scope_used_last() {
    let event = obj(vec![(
        "directive",
        obj(vec![
            ("header", obj(vec![("payloadVersion", Json::Str(s("3")))])),
            ("payload", obj(vec![("scope", scope("BearerToken", Some("from-payload")))])),
        ]),
    )]);
    assert_eq!(validate(&event, &cfg(false, None)), Ok(s("from-payload")));
}

#[test]
fn missing_scope_fails() {
    let event = obj(vec![(
        "directive",
        obj(vec![("header", obj(vec![("payloadVersion", Json::Str(s("3")))]))]),
    )]);
    assert_eq!(validate(&event, &cfg(true, Some("zzz"))), Err(ValidationError::MissingScope));
}

#[test]
fn unsupported_scope_type_fails() {
    let event = event_with_endpoint_scope(Json::Str(s("3")), scope("OAuthToken", Some("abc")));
    assert_eq!(validate(&event, &cfg(false, None)), Err(ValidationError::UnsupportedScopeType));

    let no_type = obj(vec![(
        "directive",
        obj(vec![
            ("header", obj(vec![("payloadVersion", Json::Str(s("3")))])),
            ("endpoint", obj(vec![("scope", obj(vec![("token", Json::Str(s("abc")))]))])),
        ]),
    )]);
    assert_eq!(validate(&no_type, &cfg(false, None)), Err(ValidationError::UnsupportedScopeType));
}

#[test]
fn scope_token_used_verbatim_despite_fallback() {
    let event = event_with_endpoint_scope(Json::Str(s("3")), scope("BearerToken", Some("abc")));
    assert_eq!(validate(&event, &cfg(true, Some("zzz"))), Ok(s("abc")));
    assert_eq!(validate(&event, &cfg(false, Some("zzz"))), Ok(s("abc")));
}

#[test]
fn missing_token_without_diagnostics_despite_fallback() {
    let event = event_with_endpoint_scope(Json::Str(s("3")), scope("BearerToken", None));
    assert_eq!(validate(&event, &cfg(false, Some("zzz"))), Err(ValidationError::MissingToken));
    assert_eq!(validate(&event, &cfg(false, None)), Err(ValidationError::MissingToken));
}

#[test]
fn fallback_token_used_under_diagnostics() {
    let event = event_with_endpoint_scope(Json::Str(s("3")), scope("BearerToken", None));
    assert_eq!(validate(&event, &cfg(true, Some("long-lived"))), Ok(s("long-lived")));
    assert_eq!(validate(&event, &cfg(true, None)), Err(ValidationError::MissingFallbackToken));
}

#[test]
fn non_string_token_reads_as_absent() {
    let sc = obj(vec![("type", Json::Str(s("BearerToken"))), ("token", Json::Num(s("7")))]);
    let event = event_with_endpoint_scope(Json::Str(s("3")), sc);
    assert_eq!(validate(&event, &cfg(false, None)), Err(ValidationError::MissingToken));
}

#[test]
fn rejection_messages_match_host_output() {
    assert_eq!(
        ValidationError::MissingDirective.message(),
        s("Malformed request - missing directive")
    );
    assert_eq!(
        ValidationError::UnsupportedVersion { got: s("3.0") }.message(),
        s("Only payloadVersion == \"3\" is supported, got 3.0")
    );
    assert_eq!(
        ValidationError::MissingScope.message(),
        s("Malformed request - missing one between endpoint.scope, payload.grantee, or payload.scope")
    );
    assert_eq!(
        ValidationError::UnsupportedScopeType.message(),
        s("Malformed request - endpoint.scope.type only supports BearerToken")
    );
    assert_eq!(ValidationError::MissingToken.message(), s("Malformed request - missing auth token"));
    assert_eq!(
        ValidationError::MissingFallbackToken.message(),
        s("No token found in event, please provide a LONG_LIVED_ACCESS_TOKEN instead")
    );
}
