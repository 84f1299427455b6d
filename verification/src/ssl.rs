//! TLS session planning: certificate policy, hostname validation and the
//! remapping of the server's answer to `STARTTLS`.

use vstd::prelude::*;

use crate::config::Config;
use crate::error::{Error, NutError};
use crate::host::Host;

verus! {

/// Whether a string is a syntactically valid DNS name, as the TLS stack
/// defines it.
pub uninterp spec fn dns_name_ok(s: Seq<char>) -> bool;

/// Relies on `webpki::DNSNameRef::try_from_ascii_str`: a purely syntactic
/// check whose outcome depends on the characters alone.
#[verifier::external_body]
fn dns_name_is_valid(host: &str) -> (r: bool)
    ensures
        r == dns_name_ok(host@),
{
    webpki::DNSNameRef::try_from_ascii_str(host).is_ok()
}

/// The client-side TLS session settings the transport is upgraded with.
///
/// The connection core treats the session as an opaque token; the process
/// edge that owns a real socket builds its TLS machinery from these
/// settings.
#[derive(Debug, Clone, PartialEq, Eq)]
pub struct TlsClientSession {
    /// Whether every certificate is accepted without a hostname check.
    pub insecure: bool,
    /// The server name presented for certificate verification. When the
    /// session is insecure this is a syntactically valid placeholder and
    /// is not used for verification.
    pub server_name: String,
}

/// The server-side TLS session settings.
#[derive(Debug, Clone, PartialEq, Eq)]
pub struct TlsServerSession {
    /// Whether client certificates are requested.
    pub request_client_certificate: bool,
}

/// Builds the client TLS session for a configuration: an accept-anything
/// verifier with a placeholder name when insecure TLS was chosen, else
/// strict verification against the configured hostname, which must be a
/// valid DNS name.
pub fn make_client_session(config: &Config) -> (r: Result<TlsClientSession, Error>)
    ensures
        match r {
            Ok(s) => if config.ssl_insecure {
                s.insecure && s.server_name@ == "placeholder.invalid"@
            } else {
                match config.host {
                    Host::Tcp(t) => !s.insecure && dns_name_ok(t.hostname@) && s.server_name@
                        == t.hostname@,
                }
            },
            Err(e) => {
                &&& !config.ssl_insecure
                &&& match config.host {
                    Host::Tcp(t) => !dns_name_ok(t.hostname@),
                }
                &&& e == Error::Nut(NutError::SslInvalidHostname)
            },
        },
{
    if config.ssl_insecure {
        Ok(TlsClientSession { insecure: true, server_name: "placeholder.invalid".to_owned() })
    } else {
        let hostname = match &config.host {
            Host::Tcp(t) => t.hostname.clone(),
        };
        if dns_name_is_valid(hostname.as_str()) {
            Ok(TlsClientSession { insecure: false, server_name: hostname })
        } else {
            Err(Error::Nut(NutError::SslInvalidHostname))
        }
    }
}

/// Remaps the server's refusal of `STARTTLS`: a feature-not-configured
/// answer means the server cannot do TLS at all, which deserves its own
/// kind; every other error passes through unchanged.
pub fn remap_starttls_error(e: Error) -> (r: Error)
    ensures
        r == if e == Error::Nut(NutError::FeatureNotConfigured) {
            Error::Nut(NutError::SslNotSupported)
        } else {
            e
        },
{
    match e {
        Error::Nut(NutError::FeatureNotConfigured) => Error::Nut(NutError::SslNotSupported),
        other => other,
    }
}

} // verus!
