use rups::cmd::{Command, Response};
use rups::error::{Error, NutError};
use rups::words::Word;

fn words(ws: &[&str]) -> Vec<String> {
    ws.iter().map(|w| w.to_string()).collect()
}

#[test]
fn command_names_and_args() {
    let get = Command::Get(words(&["VAR", "dev", "ups.status"]));
    assert_eq!(get.name(), "GET");
    assert_eq!(get.args(), words(&["VAR", "dev", "ups.status"]));
    assert_eq!(get.words(), words(&["GET", "VAR", "dev", "ups.status"]));

    assert_eq!(Command::SetUsername("john".into()).name(), "USERNAME");
    assert_eq!(Command::SetUsername("john".into()).args(), words(&["john"]));
    assert_eq!(Command::SetPassword("top".into()).name(), "PASSWORD");
    assert_eq!(Command::StartTLS.name(), "STARTTLS");
    assert_eq!(Command::StartTLS.args(), words(&[]));
    assert_eq!(Command::NetworkVersion.name(), "NETVER");
    assert_eq!(Command::Version.name(), "VERSION");
    assert_eq!(Command::Logout.name(), "LOGOUT");
    let run = Command::Run {
        ups_name: "a".into(),
        cmd_name: "load.off".into(),
        param: Some("10".into()),
    };
    assert_eq!(run.name(), "INSTCMD");
    assert_eq!(run.args(), words(&["a", "load.off", "10"]));
}

#[test]
fn from_args_reads_typed_responses() {
    assert!(matches!(
        Response::from_args(words(&["OK"])),
        Ok(Response::Okay)
    ));
    assert!(matches!(
        Response::from_args(words(&["OK", "Goodbye"])),
        Ok(Response::Okay)
    ));
    match Response::from_args(words(&["VAR", "dev", "ups.status", "OL"])) {
        Ok(Response::Var(name, value)) => {
            assert_eq!(name, "ups.status");
            assert_eq!(value, "OL");
        },
        other => panic!("unexpected: {:?}", other),
    }
    match Response::from_args(words(&["BEGIN", "LIST", "VAR", "dev"])) {
        Ok(Response::BeginList(q)) => assert_eq!(q, "VAR dev"),
        other => panic!("unexpected: {:?}", other),
    }
    match Response::from_args(words(&["NUMLOGINS", "dev", "42"])) {
        Ok(Response::NumLogins(n)) => assert_eq!(n, 42),
        other => panic!("unexpected: {:?}", other),
    }
    assert!(matches!(
        Response::from_args(words(&["ERR", "DATA-STALE"])),
        Err(Error::Nut(NutError::DataStale))
    ));
    assert!(matches!(
        Response::from_args(words(&["WEIRD", "x"])),
        Err(Error::Nut(NutError::UnknownResponseType(t))) if t == "WEIRD"
    ));
    assert!(matches!(
        Response::from_args(words(&["VAR", "dev"])),
        Err(Error::Nut(NutError::Generic(_)))
    ));
    assert!(matches!(
        Response::from_args(words(&[])),
        Err(Error::Nut(NutError::Generic(_)))
    ));
}

#[test]
fn expectations_check_the_row_kind() {
    let row = Response::from_args(words(&["UPS", "dev", "A NUT device."])).unwrap();
    assert_eq!(
        row.expect_ups().unwrap(),
        ("dev".to_string(), "A NUT device.".to_string())
    );
    assert!(matches!(
        row.expect_ok(),
        Err(Error::Nut(NutError::UnexpectedResponse))
    ));
    let begin = Response::from_args(words(&["BEGIN", "LIST", "UPS"])).unwrap();
    assert!(begin.expect_begin_list(&words(&["UPS"])).is_ok());
    assert!(begin.expect_begin_list(&words(&["VAR", "dev"])).is_err());
    let range = Response::from_args(words(&["RANGE", "dev", "v", "90", "100"])).unwrap();
    let g = range.expect_range().unwrap();
    assert_eq!(g.0, "90");
    assert_eq!(g.1, "100");
}

#[test]
fn word_vocabulary_round_trips() {
    assert_eq!(Word::decode(Some("BEGIN")), Word::Begin);
    assert_eq!(Word::decode(Some("Goodbye")), Word::Goodbye);
    assert_eq!(Word::decode(Some("goodbye")), Word::Arg);
    assert_eq!(Word::decode(Some("FSD-SET")), Word::FsdSet);
    assert_eq!(Word::decode(None), Word::Eol);
    assert_eq!(Word::Var.encode(), Some("VAR"));
    assert_eq!(Word::Arg.encode(), None);
    assert_eq!(Word::Eol.encode(), None);
    assert!(Word::Arg.matches(Some(&Word::Var)));
    assert!(!Word::Arg.matches(Some(&Word::Eol)));
    assert!(Word::Eol.matches(None));
    assert!(Word::Var.matches(Some(&Word::Var)));
    assert!(!Word::Var.matches(Some(&Word::Rw)));
}
