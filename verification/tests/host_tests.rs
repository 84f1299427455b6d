use rups::host::{get_ups_name, UpsdName};

#[test]
fn test_upsdname_parser_full() {
    let name = UpsdName::parse("ups@notlocal:1234").unwrap();
    assert_eq!(
        name,
        UpsdName {
            upsname: Some("ups".to_string()),
            hostname: "notlocal".to_string(),
            port: 1234
        }
    );
    assert_eq!(name.to_text(), "ups@notlocal:1234");
}

#[test]
fn test_upsdname_parser_no_name() {
    let name = UpsdName::parse("notlocal:5678").unwrap();
    assert_eq!(
        name,
        UpsdName {
            upsname: None,
            hostname: "notlocal".to_string(),
            port: 5678
        }
    );
    assert_eq!(name.to_text(), "notlocal:5678");
}

#[test]
fn test_upsdname_parser_no_port_no_hostname() {
    let name = UpsdName::parse("ups0").unwrap();
    assert_eq!(
        name,
        UpsdName {
            upsname: Some("ups0".to_string()),
            hostname: "localhost".to_string(),
            port: 3493
        }
    );
    assert_eq!(name.to_text(), "ups0@localhost:3493");
}

#[test]
fn test_upsdname_parser_no_port() {
    let name = UpsdName::parse("ups@notlocal").unwrap();
    assert_eq!(
        name,
        UpsdName {
            upsname: Some("ups".to_string()),
            hostname: "notlocal".to_string(),
            port: 3493
        }
    );
    assert_eq!(name.to_text(), "ups@notlocal:3493");
}

#[test]
fn parser_test_upsdname_parser_full() {
    let name = UpsdName::parse_with_defaults("ups@notlocal:1234", "127.0.0.1", 3493).unwrap();
    assert_eq!(
        name,
        UpsdName {
            upsname: Some("ups".to_string()),
            hostname: "notlocal".to_string(),
            port: 1234
        }
    );
    assert_eq!(name.to_text(), "ups@notlocal:1234");
}

#[test]
fn parser_test_upsdname_parser_no_name() {
    let name = UpsdName::parse_with_defaults("notlocal:5678", "127.0.0.1", 3493).unwrap();
    assert_eq!(
        name,
        UpsdName {
            upsname: None,
            hostname: "notlocal".to_string(),
            port: 5678
        }
    );
    assert_eq!(name.to_text(), "notlocal:5678");
}

#[test]
fn parser_test_upsdname_parser_no_port_no_hostname() {
    let name = UpsdName::parse_with_defaults("ups0", "127.0.0.1", 3493).unwrap();
    assert_eq!(
        name,
        UpsdName {
            upsname: Some("ups0".to_string()),
            hostname: "127.0.0.1".to_string(),
            port: 3493
        }
    );
    assert_eq!(name.to_text(), "ups0@127.0.0.1:3493");
}

#[test]
fn parser_test_upsdname_parser_no_port() {
    let name = UpsdName::parse_with_defaults("ups@notlocal", "127.0.0.1", 3493).unwrap();
    assert_eq!(
        name,
        UpsdName {
            upsname: Some("ups".to_string()),
            hostname: "notlocal".to_string(),
            port: 3493
        }
    );
    assert_eq!(name.to_text(), "ups@notlocal:3493");
}

#[test]
fn upsdname_parser_rejects_bad_port() {
    assert!(UpsdName::parse("notlocal:99999").is_err());
    assert!(UpsdName::parse("notlocal:12x4").is_err());
    assert!(UpsdName::parse("notlocal:+x").is_err());
}

#[test]
fn upsdname_parser_accepts_a_signed_port() {
    let name = UpsdName::parse("notlocal:+80").unwrap();
    assert_eq!(name.port, 80);
    assert_eq!(name.hostname, "notlocal");
}

#[test]
fn upsdname_parser_rejects_an_empty_name() {
    assert!(UpsdName::parse("").is_err());
}

#[test]
fn ups_name_is_required() {
    let with_name = UpsdName::parse("ups@notlocal").unwrap();
    assert_eq!(get_ups_name(&with_name).unwrap(), "ups");
    let without_name = UpsdName::parse("notlocal:5678").unwrap();
    assert!(get_ups_name(&without_name).is_err());
}
