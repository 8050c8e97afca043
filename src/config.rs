use vstd::prelude::*;

verus! {

/// The path of the landing page.
pub const ROOT_PATH: &'static str = "/";

/// The path of the health check.
pub const HEALTH_PATH: &'static str = "/api/health";

/// The path of the Fibonacci endpoint.
pub const FIBONACCI_PATH: &'static str = "/api/compute/fibonacci";

/// The TCP port the service listens on, on all interfaces.
pub const LISTEN_PORT: u16 = 3000;

/// The variable that may name the PEM certificate file.
pub const CERT_PATH_VAR: &'static str = "TLS_CERT_PATH";

/// The variable that may name the PEM private key file.
pub const KEY_PATH_VAR: &'static str = "TLS_KEY_PATH";

/// The certificate file used when no other is configured.
pub const DEFAULT_CERT_PATH: &'static str = "/certs/server.crt";

/// The private key file used when no other is configured.
pub const DEFAULT_KEY_PATH: &'static str = "/certs/server.key";

/// The files the TLS material is loaded from.
pub struct TlsPaths {
    pub cert: String,
    pub key: String,
}

/// A configured path, or the default where none is configured.
pub open spec fn path_or_default(configured: Option<String>, default: Seq<char>) -> Seq<char> {
    match configured {
        Some(p) => p@,
        None => default,
    }
}

impl TlsPaths {
    /// The TLS files from the configured values, each falling back to its
    /// default when absent.
    pub fn from_configured(cert: Option<String>, key: Option<String>) -> (r: TlsPaths)
        ensures
            r.cert@ == path_or_default(cert, DEFAULT_CERT_PATH@),
            r.key@ == path_or_default(key, DEFAULT_KEY_PATH@),
    {
        TlsPaths { cert: resolve_path(cert, DEFAULT_CERT_PATH), key: resolve_path(key, DEFAULT_KEY_PATH) }
    }
}

/// `configured` where present, else `default`.
pub fn resolve_path(configured: Option<String>, default: &str) -> (r: String)
    ensures
        r@ == path_or_default(configured, default@),
{
    match configured {
        Some(p) => p,
        None => default.to_owned(),
    }
}

} // verus!
