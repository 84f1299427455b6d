//! The error taxonomy: typed server-reported errors, protocol faults
//! found on the client side, and transport failures.

use vstd::prelude::*;

use crate::text::str_eq;

verus! {

/// A NUT protocol error: the typed server error codes plus the faults the
/// client finds in a response.
#[derive(Debug, Clone, PartialEq, Eq)]
pub enum NutError {
    /// The username/password combination was rejected.
    AccessDenied,
    /// The named UPS device does not exist.
    UnknownUps,
    /// The UPS does not support the variable in the request.
    VarNotSupported,
    /// The UPS does not support the instant command in the request.
    CmdNotSupported,
    /// An argument was not recognized or is invalid in this context.
    InvalidArgument,
    /// The server failed to deliver the instant command to the driver.
    InstCmdFailed,
    /// The server failed to deliver the set request to the driver.
    SetFailed,
    /// The variable in a SET request is not writable.
    ReadOnly,
    /// The value in a SET request is too long.
    TooLong,
    /// The server does not support the requested feature.
    FeatureNotSupported,
    /// TLS is already active on this connection.
    AlreadySslMode,
    /// The driver for the UPS is not connected.
    DriverNotConnected,
    /// The driver is not providing regular updates or marked its data stale.
    DataStale,
    /// A LOGIN was already sent on this connection.
    AlreadyLoggedIn,
    /// The client sent an invalid PASSWORD.
    InvalidPassword,
    /// A PASSWORD was already set and cannot be set again.
    AlreadySetPassword,
    /// The client sent an invalid USERNAME.
    InvalidUsername,
    /// A USERNAME was already set and cannot be set again.
    AlreadySetUsername,
    /// The command needs a username which the client has not set.
    UsernameRequired,
    /// The command needs a password which the client has not set.
    PasswordRequired,
    /// The server does not recognize the command.
    UnknownCommand,
    /// The value in the request is not valid.
    InvalidValue,
    /// The response type or content was not the one expected here.
    UnexpectedResponse,
    /// The response type is not recognized by the client.
    UnknownResponseType(String),
    /// TLS was requested on a transport or server that cannot provide it.
    SslNotSupported,
    /// The configured hostname cannot be used for a strict TLS connection.
    SslInvalidHostname,
    /// The client used a feature that the server has disabled.
    FeatureNotConfigured,
    /// A message could not be processed (for one, unbalanced quoting).
    NotProcessable,
    /// A generic client-side error.
    Generic(String),
}

/// Transport-level failure kinds.
#[derive(Debug, Clone, Copy, PartialEq, Eq, Structural)]
pub enum IoErrorKind {
    /// The connection could not be established.
    ConnectFailed,
    /// The peer reset the connection.
    ConnectionReset,
    /// A read from the stream failed.
    ReadFailed,
    /// A write to the stream failed.
    WriteFailed,
    /// The stream ended while a sentence was expected.
    UnexpectedEof,
    /// The TLS handshake failed.
    TlsHandshake,
    /// The operation is not supported on this stream (a line read on an
    /// unbuffered stream).
    NotSupported,
}

/// An error of this library: either a transport failure or a protocol
/// error.
#[derive(Debug, Clone, PartialEq, Eq)]
pub enum Error {
    /// A transport failure.
    Io(IoErrorKind),
    /// A protocol error.
    Nut(NutError),
}

/// How a server error code maps to its typed kind: the documented codes
/// one-to-one, every other code to `Generic` carrying the code itself.
pub open spec fn spec_code_maps(code: Seq<char>, e: NutError) -> bool {
    if code == "ACCESS-DENIED"@ {
        e == NutError::AccessDenied
    } else if code == "UNKNOWN-UPS"@ {
        e == NutError::UnknownUps
    } else if code == "VAR-NOT-SUPPORTED"@ {
        e == NutError::VarNotSupported
    } else if code == "CMD-NOT-SUPPORTED"@ {
        e == NutError::CmdNotSupported
    } else if code == "INVALID-ARGUMENT"@ {
        e == NutError::InvalidArgument
    } else if code == "INSTCMD-FAILED"@ {
        e == NutError::InstCmdFailed
    } else if code == "SET-FAILED"@ {
        e == NutError::SetFailed
    } else if code == "READONLY"@ {
        e == NutError::ReadOnly
    } else if code == "TOO-LONG"@ {
        e == NutError::TooLong
    } else if code == "FEATURE-NOT-SUPPORTED"@ {
        e == NutError::FeatureNotSupported
    } else if code == "FEATURE-NOT-CONFIGURED"@ {
        e == NutError::FeatureNotConfigured
    } else if code == "ALREADY-SSL-MODE"@ {
        e == NutError::AlreadySslMode
    } else if code == "DRIVER-NOT-CONNECTED"@ {
        e == NutError::DriverNotConnected
    } else if code == "DATA-STALE"@ {
        e == NutError::DataStale
    } else if code == "ALREADY-LOGGED-IN"@ {
        e == NutError::AlreadyLoggedIn
    } else if code == "INVALID-PASSWORD"@ {
        e == NutError::InvalidPassword
    } else if code == "ALREADY-SET-PASSWORD"@ {
        e == NutError::AlreadySetPassword
    } else if code == "INVALID-USERNAME"@ {
        e == NutError::InvalidUsername
    } else if code == "ALREADY-SET-USERNAME"@ {
        e == NutError::AlreadySetUsername
    } else if code == "USERNAME-REQUIRED"@ {
        e == NutError::UsernameRequired
    } else if code == "PASSWORD-REQUIRED"@ {
        e == NutError::PasswordRequired
    } else if code == "UNKNOWN-COMMAND"@ {
        e == NutError::UnknownCommand
    } else if code == "INVALID-VALUE"@ {
        e == NutError::InvalidValue
    } else {
        e matches NutError::Generic(m) && m@ == code
    }
}

impl NutError {
    /// Constructs a generic error carrying the given message.
    pub fn generic(message: &str) -> (r: NutError)
        ensures
            r matches NutError::Generic(m) && m@ == message@,
    {
        NutError::Generic(message.to_owned())
    }

    /// Maps a server error code to its typed kind, per [`spec_code_maps`].
    pub fn from_code(code: &str) -> (r: NutError)
        ensures
            spec_code_maps(code@, r),
    {
        if str_eq(code, "ACCESS-DENIED") {
            NutError::AccessDenied
        } else if str_eq(code, "UNKNOWN-UPS") {
            NutError::UnknownUps
        } else if str_eq(code, "VAR-NOT-SUPPORTED") {
            NutError::VarNotSupported
        } else if str_eq(code, "CMD-NOT-SUPPORTED") {
            NutError::CmdNotSupported
        } else if str_eq(code, "INVALID-ARGUMENT") {
            NutError::InvalidArgument
        } else if str_eq(code, "INSTCMD-FAILED") {
            NutError::InstCmdFailed
        } else if str_eq(code, "SET-FAILED") {
            NutError::SetFailed
        } else if str_eq(code, "READONLY") {
            NutError::ReadOnly
        } else if str_eq(code, "TOO-LONG") {
            NutError::TooLong
        } else if str_eq(code, "FEATURE-NOT-SUPPORTED") {
            NutError::FeatureNotSupported
        } else if str_eq(code, "FEATURE-NOT-CONFIGURED") {
            NutError::FeatureNotConfigured
        } else if str_eq(code, "ALREADY-SSL-MODE") {
            NutError::AlreadySslMode
        } else if str_eq(code, "DRIVER-NOT-CONNECTED") {
            NutError::DriverNotConnected
        } else if str_eq(code, "DATA-STALE") {
            NutError::DataStale
        } else if str_eq(code, "ALREADY-LOGGED-IN") {
            NutError::AlreadyLoggedIn
        } else if str_eq(code, "INVALID-PASSWORD") {
            NutError::InvalidPassword
        } else if str_eq(code, "ALREADY-SET-PASSWORD") {
            NutError::AlreadySetPassword
        } else if str_eq(code, "INVALID-USERNAME") {
            NutError::InvalidUsername
        } else if str_eq(code, "ALREADY-SET-USERNAME") {
            NutError::AlreadySetUsername
        } else if str_eq(code, "USERNAME-REQUIRED") {
            NutError::UsernameRequired
        } else if str_eq(code, "PASSWORD-REQUIRED") {
            NutError::PasswordRequired
        } else if str_eq(code, "UNKNOWN-COMMAND") {
            NutError::UnknownCommand
        } else if str_eq(code, "INVALID-VALUE") {
            NutError::InvalidValue
        } else {
            NutError::Generic(code.to_owned())
        }
    }

    /// A short human-readable description of the error. The texts are
    /// presentation only; no contract elsewhere depends on them.
    pub fn message(&self) -> (r: String) {
        match self {
            NutError::AccessDenied => "Access denied".to_owned(),
            NutError::UnknownUps => "Unknown UPS device".to_owned(),
            NutError::VarNotSupported => "Variable not supported".to_owned(),
            NutError::CmdNotSupported => "Command not supported".to_owned(),
            NutError::InvalidArgument => "Invalid argument".to_owned(),
            NutError::InstCmdFailed => "Instant command failed".to_owned(),
            NutError::SetFailed => "Failed to set variable".to_owned(),
            NutError::ReadOnly => "Cannot set read-only variable".to_owned(),
            NutError::TooLong => "Value is too long".to_owned(),
            NutError::FeatureNotSupported => "Feature is not supported by server".to_owned(),
            NutError::AlreadySslMode => "Connection is already in TLS/SSL".to_owned(),
            NutError::DriverNotConnected => "Driver is not connected".to_owned(),
            NutError::DataStale => "Data is stale".to_owned(),
            NutError::AlreadyLoggedIn => "Connection is already authenticated".to_owned(),
            NutError::InvalidPassword => "Invalid password".to_owned(),
            NutError::AlreadySetPassword => "Password can only be set once".to_owned(),
            NutError::InvalidUsername => "Invalid username".to_owned(),
            NutError::AlreadySetUsername => "Username can only be set once".to_owned(),
            NutError::UsernameRequired => "Username required".to_owned(),
            NutError::PasswordRequired => "Password required".to_owned(),
            NutError::UnknownCommand => "Unknown command".to_owned(),
            NutError::InvalidValue => "Invalid value".to_owned(),
            NutError::UnexpectedResponse => "Unexpected server response content".to_owned(),
            NutError::UnknownResponseType(_) => "Unknown response type".to_owned(),
            NutError::SslNotSupported => "SSL not supported by server or transport".to_owned(),
            NutError::SslInvalidHostname => {
                "Given hostname cannot be used for a strict SSL connection".to_owned()
            },
            NutError::FeatureNotConfigured => "Feature not configured by server".to_owned(),
            NutError::NotProcessable => "Message could not be processed".to_owned(),
            NutError::Generic(_) => "NUT error".to_owned(),
        }
    }
}

impl Error {
    /// Constructs a generic protocol error carrying the given message.
    pub fn generic(message: &str) -> (r: Error)
        ensures
            r matches Error::Nut(e) && e matches NutError::Generic(m) && m@ == message@,
    {
        Error::Nut(NutError::generic(message))
    }

    /// Constructs the end-of-stream transport error.
    pub fn eof() -> (r: Error)
        ensures
            r == Error::Io(IoErrorKind::UnexpectedEof),
    {
        Error::Io(IoErrorKind::UnexpectedEof)
    }

    /// Whether this is a transport failure (after which the connection
    /// must only be closed).
    pub fn is_io(&self) -> (r: bool)
        ensures
            r == (self is Io),
    {
        match self {
            Error::Io(_) => true,
            Error::Nut(_) => false,
        }
    }
}

} // verus!
