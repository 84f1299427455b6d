use rups::sentences::ServerSentences;

fn check(raw: Vec<String>, expected: ServerSentences) {
    assert_eq!(ServerSentences::decode(&raw), Some(expected.clone()));
    assert_eq!(expected.encode(), raw);
}

#[test]
fn server_test_encode_decode() {
    check(
        vec![String::from("GET"), String::from("NUMLOGINS"), String::from("nutdev")],
        ServerSentences::QueryNumLogins { ups_name: "nutdev".into() },
    );
    check(
        vec![String::from("GET"), String::from("UPSDESC"), String::from("nutdev")],
        ServerSentences::QueryUpsDesc { ups_name: "nutdev".into() },
    );
    check(
        vec![String::from("GET"), String::from("VAR"), String::from("nutdev"), String::from("test.var")],
        ServerSentences::QueryVar { ups_name: "nutdev".into(), var_name: "test.var".into() },
    );
    check(
        vec![String::from("GET"), String::from("TYPE"), String::from("nutdev"), String::from("test.var")],
        ServerSentences::QueryType { ups_name: "nutdev".into(), var_name: "test.var".into() },
    );
    check(
        vec![String::from("GET"), String::from("DESC"), String::from("nutdev"), String::from("test.var")],
        ServerSentences::QueryDesc { ups_name: "nutdev".into(), var_name: "test.var".into() },
    );
    check(
        vec![String::from("GET"), String::from("CMDDESC"), String::from("nutdev"), String::from("test.cmd")],
        ServerSentences::QueryCmdDesc { ups_name: "nutdev".into(), cmd_name: "test.cmd".into() },
    );
    check(
        vec![String::from("LIST"), String::from("VAR"), String::from("nutdev")],
        ServerSentences::QueryListVar { ups_name: "nutdev".into() },
    );
    check(
        vec![String::from("LIST"), String::from("UPS")],
        ServerSentences::QueryListUps,
    );
    check(
        vec![String::from("LIST"), String::from("RW"), String::from("nutdev")],
        ServerSentences::QueryListRw { ups_name: "nutdev".into() },
    );
    check(
        vec![String::from("LIST"), String::from("CMD"), String::from("nutdev")],
        ServerSentences::QueryListCmd { ups_name: "nutdev".into() },
    );
    check(
        vec![String::from("LIST"), String::from("ENUM"), String::from("nutdev"), String::from("test.var")],
        ServerSentences::QueryListEnum { ups_name: "nutdev".into(), var_name: "test.var".into() },
    );
    check(
        vec![String::from("LIST"), String::from("RANGE"), String::from("nutdev"), String::from("test.var")],
        ServerSentences::QueryListRange { ups_name: "nutdev".into(), var_name: "test.var".into() },
    );
    check(
        vec![String::from("LIST"), String::from("CLIENT"), String::from("nutdev")],
        ServerSentences::QueryListClient { ups_name: "nutdev".into() },
    );
    check(
        vec![String::from("SET"), String::from("VAR"), String::from("nutdev"), String::from("test.var"), String::from("something")],
        ServerSentences::ExecSetVar { ups_name: "nutdev".into(), var_name: "test.var".into(), value: "something".into() },
    );
    check(
        vec![String::from("INSTCMD"), String::from("nutdev"), String::from("test.cmd")],
        ServerSentences::ExecInstCmd { ups_name: "nutdev".into(), cmd_name: "test.cmd".into(), extra_args: vec![] },
    );
    check(
        vec![String::from("LOGOUT")],
        ServerSentences::ExecLogout,
    );
    check(
        vec![String::from("LOGIN"), String::from("nutdev")],
        ServerSentences::ExecLogin { ups_name: "nutdev".into() },
    );
    check(
        vec![String::from("MASTER"), String::from("nutdev")],
        ServerSentences::ExecMaster { ups_name: "nutdev".into() },
    );
    check(
        vec![String::from("FSD"), String::from("nutdev")],
        ServerSentences::ExecForcedShutDown { ups_name: "nutdev".into() },
    );
    check(
        vec![String::from("PASSWORD"), String::from("topsecret")],
        ServerSentences::SetPassword { password: "topsecret".into() },
    );
    check(
        vec![String::from("USERNAME"), String::from("john")],
        ServerSentences::SetUsername { username: "john".into() },
    );
    check(
        vec![String::from("STARTTLS")],
        ServerSentences::ExecStartTLS,
    );
    check(
        vec![String::from("HELP")],
        ServerSentences::QueryHelp,
    );
    check(
        vec![String::from("VERSION")],
        ServerSentences::QueryVersion,
    );
    check(
        vec![String::from("NETVER")],
        ServerSentences::QueryNetworkVersion,
    );
}

#[test]
fn mod_test_encode_decode() {
    check(
        vec![String::from("GET"), String::from("NUMLOGINS"), String::from("nutdev")],
        ServerSentences::QueryNumLogins { ups_name: "nutdev".into() },
    );
    check(
        vec![String::from("GET"), String::from("UPSDESC"), String::from("nutdev")],
        ServerSentences::QueryUpsDesc { ups_name: "nutdev".into() },
    );
    check(
        vec![String::from("GET"), String::from("VAR"), String::from("nutdev"), String::from("test.var")],
        ServerSentences::QueryVar { ups_name: "nutdev".into(), var_name: "test.var".into() },
    );
    check(
        vec![String::from("GET"), String::from("TYPE"), String::from("nutdev"), String::from("test.var")],
        ServerSentences::QueryType { ups_name: "nutdev".into(), var_name: "test.var".into() },
    );
    check(
        vec![String::from("GET"), String::from("DESC"), String::from("nutdev"), String::from("test.var")],
        ServerSentences::QueryDesc { ups_name: "nutdev".into(), var_name: "test.var".into() },
    );
    check(
        vec![String::from("GET"), String::from("CMDDESC"), String::from("nutdev"), String::from("test.cmd")],
        ServerSentences::QueryCmdDesc { ups_name: "nutdev".into(), cmd_name: "test.cmd".into() },
    );
    check(
        vec![String::from("LIST"), String::from("VAR"), String::from("nutdev")],
        ServerSentences::QueryListVar { ups_name: "nutdev".into() },
    );
    check(
        vec![String::from("LIST"), String::from("RW"), String::from("nutdev")],
        ServerSentences::QueryListRw { ups_name: "nutdev".into() },
    );
    check(
        vec![String::from("LIST"), String::from("CMD"), String::from("nutdev")],
        ServerSentences::QueryListCmd { ups_name: "nutdev".into() },
    );
    check(
        vec![String::from("LIST"), String::from("ENUM"), String::from("nutdev"), String::from("test.var")],
        ServerSentences::QueryListEnum { ups_name: "nutdev".into(), var_name: "test.var".into() },
    );
    check(
        vec![String::from("LIST"), String::from("RANGE"), String::from("nutdev"), String::from("test.var")],
        ServerSentences::QueryListRange { ups_name: "nutdev".into(), var_name: "test.var".into() },
    );
    check(
        vec![String::from("LIST"), String::from("CLIENT"), String::from("nutdev")],
        ServerSentences::QueryListClient { ups_name: "nutdev".into() },
    );
    check(
        vec![String::from("SET"), String::from("VAR"), String::from("nutdev"), String::from("test.var"), String::from("something")],
        ServerSentences::ExecSetVar { ups_name: "nutdev".into(), var_name: "test.var".into(), value: "something".into() },
    );
    check(
        vec![String::from("INSTCMD"), String::from("nutdev"), String::from("test.cmd")],
        ServerSentences::ExecInstCmd { ups_name: "nutdev".into(), cmd_name: "test.cmd".into(), extra_args: vec![] },
    );
    check(
        vec![String::from("LOGOUT")],
        ServerSentences::ExecLogout,
    );
    check(
        vec![String::from("LOGIN"), String::from("nutdev")],
        ServerSentences::ExecLogin { ups_name: "nutdev".into() },
    );
    check(
        vec![String::from("MASTER"), String::from("nutdev")],
        ServerSentences::ExecMaster { ups_name: "nutdev".into() },
    );
    check(
        vec![String::from("FSD"), String::from("nutdev")],
        ServerSentences::ExecForcedShutDown { ups_name: "nutdev".into() },
    );
    check(
        vec![String::from("PASSWORD"), String::from("topsecret")],
        ServerSentences::SetPassword { password: "topsecret".into() },
    );
    check(
        vec![String::from("USERNAME"), String::from("john")],
        ServerSentences::SetUsername { username: "john".into() },
    );
    check(
        vec![String::from("STARTTLS")],
        ServerSentences::ExecStartTLS,
    );
    check(
        vec![String::from("HELP")],
        ServerSentences::QueryHelp,
    );
    check(
        vec![String::from("VERSION")],
        ServerSentences::QueryVersion,
    );
    check(
        vec![String::from("NETVER")],
        ServerSentences::QueryNetworkVersion,
    );
}

#[test]
fn instcmd_carries_an_optional_argument() {
    check(
        vec![String::from("INSTCMD"), String::from("nutdev"), String::from("load.off"), String::from("10")],
        ServerSentences::ExecInstCmd {
            ups_name: "nutdev".into(),
            cmd_name: "load.off".into(),
            extra_args: vec!["10".into()],
        },
    );
}
