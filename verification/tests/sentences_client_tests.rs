use rups::sentences::ClientSentences;

fn check(raw: Vec<String>, expected: ClientSentences) {
    assert_eq!(ClientSentences::decode(&raw), Some(expected.clone()));
    assert_eq!(expected.encode(), raw);
}

#[test]
fn client_test_encode_decode() {
    check(
        vec![String::from("OK")],
        ClientSentences::GenericOk,
    );
    check(
        vec![String::from("OK"), String::from("FSD-SET")],
        ClientSentences::FsdOk,
    );
    check(
        vec![String::from("OK"), String::from("STARTTLS")],
        ClientSentences::StartTLSOk,
    );
    check(
        vec![String::from("OK"), String::from("Goodbye")],
        ClientSentences::LogoutOk,
    );
    check(
        vec![String::from("ERR"), String::from("ACCESS-DENIED")],
        ClientSentences::RespondErr { message: "ACCESS-DENIED".into(), extras: vec![] },
    );
    check(
        vec![String::from("ERR"), String::from("ACCESS-DENIED"), String::from("extra1"), String::from("extra2")],
        ClientSentences::RespondErr { message: "ACCESS-DENIED".into(), extras: vec!["extra1".into(), "extra2".into()] },
    );
    check(
        vec![String::from("NUMLOGINS"), String::from("nutdev"), String::from("42")],
        ClientSentences::RespondNumLogins { ups_name: "nutdev".into(), num_logins: "42".into() },
    );
    check(
        vec![String::from("UPSDESC"), String::from("nutdev"), String::from("Development box")],
        ClientSentences::RespondUpsDesc { ups_name: "nutdev".into(), description: "Development box".into() },
    );
    check(
        vec![String::from("VAR"), String::from("nutdev"), String::from("ups.status"), String::from("OL")],
        ClientSentences::RespondVar { ups_name: "nutdev".into(), var_name: "ups.status".into(), value: "OL".into() },
    );
    check(
        vec![String::from("TYPE"), String::from("nutdev"), String::from("input.transfer.low"), String::from("ENUM"), String::from("RW")],
        ClientSentences::RespondType { ups_name: "nutdev".into(), var_name: "input.transfer.low".into(), var_types: vec!["ENUM".into(), "RW".into()] },
    );
    check(
        vec![String::from("DESC"), String::from("nutdev"), String::from("ups.status"), String::from("UPS status")],
        ClientSentences::RespondDesc { ups_name: "nutdev".into(), var_name: "ups.status".into(), description: "UPS status".into() },
    );
    check(
        vec![String::from("CMDDESC"), String::from("nutdev"), String::from("load.on"), String::from("Turn on the load immediately")],
        ClientSentences::RespondCmdDesc { ups_name: "nutdev".into(), cmd_name: "load.on".into(), description: "Turn on the load immediately".into() },
    );
    check(
        vec![String::from("UPS"), String::from("nutdev"), String::from("Development box")],
        ClientSentences::RespondUps { ups_name: "nutdev".into(), description: "Development box".into() },
    );
    check(
        vec![String::from("RW"), String::from("nutdev"), String::from("ups.mfr"), String::from("APC")],
        ClientSentences::RespondRw { ups_name: "nutdev".into(), var_name: "ups.mfr".into(), value: "APC".into() },
    );
    check(
        vec![String::from("CMD"), String::from("nutdev"), String::from("do.something")],
        ClientSentences::RespondCmd { ups_name: "nutdev".into(), cmd_name: "do.something".into() },
    );
    check(
        vec![String::from("ENUM"), String::from("nutdev"), String::from("input.transfer.low"), String::from("103")],
        ClientSentences::RespondEnum { ups_name: "nutdev".into(), var_name: "input.transfer.low".into(), enum_value: "103".into() },
    );
    check(
        vec![String::from("RANGE"), String::from("nutdev"), String::from("input.transfer.low"), String::from("90"), String::from("100")],
        ClientSentences::RespondRange { ups_name: "nutdev".into(), var_name: "input.transfer.low".into(), min_value: "90".into(), max_value: "100".into() },
    );
    check(
        vec![String::from("CLIENT"), String::from("nutdev"), String::from("127.0.0.1")],
        ClientSentences::RespondClient { ups_name: "nutdev".into(), client_ip: "127.0.0.1".into() },
    );
    check(
        vec![String::from("BEGIN"), String::from("LIST"), String::from("VAR"), String::from("nutdev")],
        ClientSentences::BeginListVar { ups_name: "nutdev".into() },
    );
    check(
        vec![String::from("END"), String::from("LIST"), String::from("VAR"), String::from("nutdev")],
        ClientSentences::EndListVar { ups_name: "nutdev".into() },
    );
    check(
        vec![String::from("BEGIN"), String::from("LIST"), String::from("RW"), String::from("nutdev")],
        ClientSentences::BeginListRw { ups_name: "nutdev".into() },
    );
    check(
        vec![String::from("END"), String::from("LIST"), String::from("RW"), String::from("nutdev")],
        ClientSentences::EndListRw { ups_name: "nutdev".into() },
    );
    check(
        vec![String::from("BEGIN"), String::from("LIST"), String::from("CMD"), String::from("nutdev")],
        ClientSentences::BeginListCmd { ups_name: "nutdev".into() },
    );
    check(
        vec![String::from("END"), String::from("LIST"), String::from("CMD"), String::from("nutdev")],
        ClientSentences::EndListCmd { ups_name: "nutdev".into() },
    );
    check(
        vec![String::from("BEGIN"), String::from("LIST"), String::from("ENUM"), String::from("nutdev"), String::from("test.var")],
        ClientSentences::BeginListEnum { ups_name: "nutdev".into(), var_name: "test.var".into() },
    );
    check(
        vec![String::from("END"), String::from("LIST"), String::from("ENUM"), String::from("nutdev"), String::from("test.var")],
        ClientSentences::EndListEnum { ups_name: "nutdev".into(), var_name: "test.var".into() },
    );
    check(
        vec![String::from("BEGIN"), String::from("LIST"), String::from("RANGE"), String::from("nutdev"), String::from("test.var")],
        ClientSentences::BeginListRange { ups_name: "nutdev".into(), var_name: "test.var".into() },
    );
    check(
        vec![String::from("END"), String::from("LIST"), String::from("RANGE"), String::from("nutdev"), String::from("test.var")],
        ClientSentences::EndListRange { ups_name: "nutdev".into(), var_name: "test.var".into() },
    );
    check(
        vec![String::from("BEGIN"), String::from("LIST"), String::from("CLIENT"), String::from("nutdev")],
        ClientSentences::BeginListClient { ups_name: "nutdev".into() },
    );
    check(
        vec![String::from("END"), String::from("LIST"), String::from("CLIENT"), String::from("nutdev")],
        ClientSentences::EndListClient { ups_name: "nutdev".into() },
    );
    check(
        vec![String::from("BEGIN"), String::from("LIST"), String::from("UPS")],
        ClientSentences::BeginListUps,
    );
    check(
        vec![String::from("END"), String::from("LIST"), String::from("UPS")],
        ClientSentences::EndListUps,
    );
}

#[test]
fn variadic_tails_round_trip_at_each_length() {
    // a variadic tail of length zero, one and three
    check(
        vec![String::from("ERR"), String::from("ACCESS-DENIED")],
        ClientSentences::RespondErr {
            message: "ACCESS-DENIED".into(),
            extras: vec![],
        },
    );
    check(
        vec![
            String::from("ERR"),
            String::from("ACCESS-DENIED"),
            String::from("extra1"),
        ],
        ClientSentences::RespondErr {
            message: "ACCESS-DENIED".into(),
            extras: vec!["extra1".into()],
        },
    );
    check(
        vec![
            String::from("ERR"),
            String::from("ACCESS-DENIED"),
            String::from("extra1"),
            String::from("extra2"),
            String::from("extra3"),
        ],
        ClientSentences::RespondErr {
            message: "ACCESS-DENIED".into(),
            extras: vec!["extra1".into(), "extra2".into(), "extra3".into()],
        },
    );
    check(
        vec![
            String::from("TYPE"),
            String::from("nutdev"),
            String::from("ups.status"),
        ],
        ClientSentences::RespondType {
            ups_name: "nutdev".into(),
            var_name: "ups.status".into(),
            var_types: vec![],
        },
    );
}

#[test]
fn client_decode_rejects_unknown_patterns() {
    assert_eq!(ClientSentences::decode(&vec![]), None);
    assert_eq!(
        ClientSentences::decode(&vec![String::from("NOPE"), String::from("x")]),
        None
    );
    assert_eq!(
        ClientSentences::decode(&vec![String::from("OK"), String::from("weird")]),
        None
    );
}
