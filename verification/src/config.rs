//! Process-wide configuration and the settings the outbound HTTP client is
//! built from. The host resolves the configuration once from its environment
//! and passes it explicitly into the gateway; nothing here reads the
//! environment itself.

use vstd::prelude::*;

verus! {

/// Connect timeout of the outbound client, in seconds.
pub const CONNECT_TIMEOUT_SECS: u64 = 2;

/// Read timeout of the outbound client, in seconds.
pub const READ_TIMEOUT_SECS: u64 = 10;

/// Configuration resolved once per process and injected into the gateway.
pub struct Config {
    /// Backend root URL; trailing slashes are stripped before the fixed API
    /// path is appended.
    pub base_url: String,
    /// Statically configured fallback credential, usable only when
    /// verbose-diagnostics mode is active.
    pub fallback_token: Option<String>,
    /// Disables TLS certificate verification on the outbound client.
    pub insecure: bool,
    /// Verbose-diagnostics mode: debug-level logging is enabled.
    pub diagnostics: bool,
}

/// Reads the raw insecure-mode value as a boolean flag: set exactly when the
/// value is present and is the string `true`; anything else (absent,
/// unparsable, `false`) leaves certificate verification on.
pub fn parse_insecure_flag(raw: Option<&String>) -> (r: bool)
    ensures
        r == (raw matches Some(v) && v@ == "true"@),
{
    match raw {
        Some(v) => crate::strutil::str_eq(v.as_str(), "true"),
        None => false,
    }
}

/// How the outbound HTTP client must be built: fixed connect and read
/// timeouts, and certificate verification disabled exactly when the
/// insecure-mode flag is set.
#[derive(PartialEq, Eq, Debug)]
pub struct ClientSettings {
    pub connect_timeout_secs: u64,
    pub read_timeout_secs: u64,
    pub accept_invalid_certs: bool,
}

/// Derives the outbound client settings from the configuration.
pub fn client_settings(cfg: &Config) -> (s: ClientSettings)
    ensures
        s.connect_timeout_secs == CONNECT_TIMEOUT_SECS,
        s.read_timeout_secs == READ_TIMEOUT_SECS,
        s.accept_invalid_certs == cfg.insecure,
{
    ClientSettings {
        connect_timeout_secs: CONNECT_TIMEOUT_SECS,
        read_timeout_secs: READ_TIMEOUT_SECS,
        accept_invalid_certs: cfg.insecure,
    }
}

} // verus!
