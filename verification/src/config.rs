//! Connection configuration: host, credentials, timeout, TLS options and
//! the debug flag. Immutable after build.

use vstd::prelude::*;

use crate::host::{Host, TcpHost};

verus! {

/// Authentication credentials: a username and an optional password.
///
/// No debug rendering: one would expose the password.
#[derive(Clone, PartialEq, Eq)]
pub struct Auth {
    /// The username to log in as.
    pub username: String,
    /// The optional password of the remote user.
    pub password: Option<String>,
}

impl Auth {
    /// Builds credentials from a username and an optional password.
    pub fn new(username: String, password: Option<String>) -> (r: Auth)
        ensures
            r.username == username,
            r.password == password,
    {
        Auth { username, password }
    }
}

/// Configuration for connecting to a remote NUT server.
///
/// No debug rendering: one would expose the password carried in the
/// credentials.
#[derive(Clone)]
pub struct Config {
    /// The host to connect to.
    pub host: Host,
    /// Optional credentials.
    pub auth: Option<Auth>,
    /// The connect timeout, in seconds.
    pub timeout_secs: u64,
    /// Whether to upgrade the connection to TLS after connecting.
    pub ssl: bool,
    /// Whether to accept any certificate without checking the hostname.
    pub ssl_insecure: bool,
    /// Whether to echo wire traffic to a diagnostic sink.
    pub debug: bool,
}

impl Config {
    /// Builds a configuration from all its parts.
    pub fn new(
        host: Host,
        auth: Option<Auth>,
        timeout_secs: u64,
        ssl: bool,
        ssl_insecure: bool,
        debug: bool,
    ) -> (r: Config)
        ensures
            r.host == host,
            r.auth == auth,
            r.timeout_secs == timeout_secs,
            r.ssl == ssl,
            r.ssl_insecure == ssl_insecure,
            r.debug == debug,
    {
        Config { host, auth, timeout_secs, ssl, ssl_insecure, debug }
    }
}

/// A builder for [`Config`].
///
/// No debug rendering: one would expose the password carried in the
/// credentials.
#[derive(Clone)]
pub struct ConfigBuilder {
    host: Option<Host>,
    auth: Option<Auth>,
    timeout_secs: Option<u64>,
    ssl: bool,
    ssl_insecure: bool,
    debug: bool,
}

impl ConfigBuilder {
    /// Starts an empty builder.
    pub fn new() -> (r: ConfigBuilder)
        ensures
            r.spec_host() is None,
            r.spec_auth() is None,
            r.spec_timeout_secs() is None,
            !r.spec_ssl(),
            !r.spec_ssl_insecure(),
            !r.spec_debug(),
    {
        ConfigBuilder {
            host: None,
            auth: None,
            timeout_secs: None,
            ssl: false,
            ssl_insecure: false,
            debug: false,
        }
    }

    /// The host set so far.
    pub closed spec fn spec_host(&self) -> Option<Host> {
        self.host
    }

    /// The credentials set so far.
    pub closed spec fn spec_auth(&self) -> Option<Auth> {
        self.auth
    }

    /// The timeout set so far.
    pub closed spec fn spec_timeout_secs(&self) -> Option<u64> {
        self.timeout_secs
    }

    /// Whether TLS was requested.
    pub closed spec fn spec_ssl(&self) -> bool {
        self.ssl
    }

    /// Whether insecure TLS was requested.
    pub closed spec fn spec_ssl_insecure(&self) -> bool {
        self.ssl_insecure
    }

    /// Whether debug echo was requested.
    pub closed spec fn spec_debug(&self) -> bool {
        self.debug
    }

    /// Sets the host.
    pub fn with_host(self, host: Host) -> (r: ConfigBuilder)
        ensures
            r.spec_host() == Some(host),
            r.spec_auth() == self.spec_auth(),
            r.spec_timeout_secs() == self.spec_timeout_secs(),
            r.spec_ssl() == self.spec_ssl(),
            r.spec_ssl_insecure() == self.spec_ssl_insecure(),
            r.spec_debug() == self.spec_debug(),
    {
        ConfigBuilder { host: Some(host), ..self }
    }

    /// Sets the optional credentials.
    pub fn with_auth(self, auth: Option<Auth>) -> (r: ConfigBuilder)
        ensures
            r.spec_auth() == auth,
            r.spec_host() == self.spec_host(),
            r.spec_timeout_secs() == self.spec_timeout_secs(),
            r.spec_ssl() == self.spec_ssl(),
            r.spec_ssl_insecure() == self.spec_ssl_insecure(),
            r.spec_debug() == self.spec_debug(),
    {
        ConfigBuilder { auth, ..self }
    }

    /// Sets the connect timeout, in seconds.
    pub fn with_timeout(self, timeout_secs: u64) -> (r: ConfigBuilder)
        ensures
            r.spec_timeout_secs() == Some(timeout_secs),
            r.spec_host() == self.spec_host(),
            r.spec_auth() == self.spec_auth(),
            r.spec_ssl() == self.spec_ssl(),
            r.spec_ssl_insecure() == self.spec_ssl_insecure(),
            r.spec_debug() == self.spec_debug(),
    {
        ConfigBuilder { timeout_secs: Some(timeout_secs), ..self }
    }

    /// Requests a TLS upgrade after connecting. Verification is strict
    /// unless insecure TLS is also requested.
    pub fn with_ssl(self, ssl: bool) -> (r: ConfigBuilder)
        ensures
            r.spec_ssl() == ssl,
            r.spec_host() == self.spec_host(),
            r.spec_auth() == self.spec_auth(),
            r.spec_timeout_secs() == self.spec_timeout_secs(),
            r.spec_ssl_insecure() == self.spec_ssl_insecure(),
            r.spec_debug() == self.spec_debug(),
    {
        ConfigBuilder { ssl, ..self }
    }

    /// Turns off certificate verification. TLS must still be requested
    /// separately.
    pub fn with_insecure_ssl(self, ssl_insecure: bool) -> (r: ConfigBuilder)
        ensures
            r.spec_ssl_insecure() == ssl_insecure,
            r.spec_host() == self.spec_host(),
            r.spec_auth() == self.spec_auth(),
            r.spec_timeout_secs() == self.spec_timeout_secs(),
            r.spec_ssl() == self.spec_ssl(),
            r.spec_debug() == self.spec_debug(),
    {
        ConfigBuilder { ssl_insecure, ..self }
    }

    /// Requests echoing wire traffic to a diagnostic sink.
    pub fn with_debug(self, debug: bool) -> (r: ConfigBuilder)
        ensures
            r.spec_debug() == debug,
            r.spec_host() == self.spec_host(),
            r.spec_auth() == self.spec_auth(),
            r.spec_timeout_secs() == self.spec_timeout_secs(),
            r.spec_ssl() == self.spec_ssl(),
            r.spec_ssl_insecure() == self.spec_ssl_insecure(),
    {
        ConfigBuilder { debug, ..self }
    }

    /// Builds the configuration, filling defaults: `localhost:3493`, a
    /// five second timeout, and all flags off.
    pub fn build(self) -> (r: Config)
        ensures
            match self.spec_host() {
                Some(h) => r.host == h,
                None => r.host matches Host::Tcp(t) && t.hostname@ == "localhost"@ && t.port
                    == 3493,
            },
            r.auth == self.spec_auth(),
            r.timeout_secs == match self.spec_timeout_secs() {
                Some(t) => t,
                None => 5u64,
            },
            r.ssl == self.spec_ssl(),
            r.ssl_insecure == self.spec_ssl_insecure(),
            r.debug == self.spec_debug(),
    {
        let host = match self.host {
            Some(h) => h,
            None => Host::Tcp(TcpHost { hostname: "localhost".to_owned(), port: 3493 }),
        };
        let timeout_secs = match self.timeout_secs {
            Some(t) => t,
            None => 5,
        };
        Config {
            host,
            auth: self.auth,
            timeout_secs,
            ssl: self.ssl,
            ssl_insecure: self.ssl_insecure,
            debug: self.debug,
        }
    }
}

} // verus!
