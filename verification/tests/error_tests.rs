use rups::error::{Error, IoErrorKind, NutError};

#[test]
fn error_codes_map_one_to_one() {
    assert_eq!(NutError::from_code("ACCESS-DENIED"), NutError::AccessDenied);
    assert_eq!(NutError::from_code("UNKNOWN-UPS"), NutError::UnknownUps);
    assert_eq!(
        NutError::from_code("VAR-NOT-SUPPORTED"),
        NutError::VarNotSupported
    );
    assert_eq!(
        NutError::from_code("CMD-NOT-SUPPORTED"),
        NutError::CmdNotSupported
    );
    assert_eq!(
        NutError::from_code("INVALID-ARGUMENT"),
        NutError::InvalidArgument
    );
    assert_eq!(NutError::from_code("INSTCMD-FAILED"), NutError::InstCmdFailed);
    assert_eq!(NutError::from_code("SET-FAILED"), NutError::SetFailed);
    assert_eq!(NutError::from_code("READONLY"), NutError::ReadOnly);
    assert_eq!(NutError::from_code("TOO-LONG"), NutError::TooLong);
    assert_eq!(
        NutError::from_code("FEATURE-NOT-SUPPORTED"),
        NutError::FeatureNotSupported
    );
    assert_eq!(
        NutError::from_code("FEATURE-NOT-CONFIGURED"),
        NutError::FeatureNotConfigured
    );
    assert_eq!(
        NutError::from_code("ALREADY-SSL-MODE"),
        NutError::AlreadySslMode
    );
    assert_eq!(
        NutError::from_code("DRIVER-NOT-CONNECTED"),
        NutError::DriverNotConnected
    );
    assert_eq!(NutError::from_code("DATA-STALE"), NutError::DataStale);
    assert_eq!(
        NutError::from_code("ALREADY-LOGGED-IN"),
        NutError::AlreadyLoggedIn
    );
    assert_eq!(
        NutError::from_code("INVALID-PASSWORD"),
        NutError::InvalidPassword
    );
    assert_eq!(
        NutError::from_code("ALREADY-SET-PASSWORD"),
        NutError::AlreadySetPassword
    );
    assert_eq!(
        NutError::from_code("INVALID-USERNAME"),
        NutError::InvalidUsername
    );
    assert_eq!(
        NutError::from_code("ALREADY-SET-USERNAME"),
        NutError::AlreadySetUsername
    );
    assert_eq!(
        NutError::from_code("USERNAME-REQUIRED"),
        NutError::UsernameRequired
    );
    assert_eq!(
        NutError::from_code("PASSWORD-REQUIRED"),
        NutError::PasswordRequired
    );
    assert_eq!(NutError::from_code("UNKNOWN-COMMAND"), NutError::UnknownCommand);
    assert_eq!(NutError::from_code("INVALID-VALUE"), NutError::InvalidValue);
    assert_eq!(
        NutError::from_code("SOMETHING-ELSE"),
        NutError::Generic("SOMETHING-ELSE".to_string())
    );
}

#[test]
fn error_constructors() {
    assert_eq!(Error::eof(), Error::Io(IoErrorKind::UnexpectedEof));
    assert!(Error::eof().is_io());
    let g = Error::generic("boom");
    assert!(!g.is_io());
    assert!(matches!(g, Error::Nut(NutError::Generic(m)) if m == "boom"));
    assert_eq!(NutError::AccessDenied.message(), "Access denied");
    assert_eq!(
        NutError::SslNotSupported.message(),
        "SSL not supported by server or transport"
    );
}
