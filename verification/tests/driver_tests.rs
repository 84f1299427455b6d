use rups::config::{Auth, Config, ConfigBuilder};
use rups::connection::Connection;
use rups::error::{Error, NutError};
use rups::host::{Host, TcpHost};
use rups::stream::{ConnectionStream, MockStream};
use rups::var::Variable;

fn host(name: &str) -> Host {
    Host::Tcp(TcpHost {
        hostname: name.to_string(),
        port: 3493,
    })
}

fn plain_config() -> Config {
    ConfigBuilder::new().with_host(host("localhost")).build()
}

fn mock(script: &str) -> ConnectionStream {
    ConnectionStream::Mock(MockStream::new(script.to_string()))
}

fn attach(script: &str) -> Connection {
    Connection::open(plain_config(), mock(script)).unwrap()
}

#[test]
fn list_framing_yields_exactly_the_items() {
    let script = "BEGIN LIST UPS\nUPS nutdev0 \"A NUT device.\"\nUPS nutdev1 \"Another NUT device.\"\nEND LIST UPS\n";
    let mut conn = attach(script);
    let ups = conn.list_ups().unwrap();
    assert_eq!(
        ups,
        vec![
            ("nutdev0".to_string(), "A NUT device.".to_string()),
            ("nutdev1".to_string(), "Another NUT device.".to_string()),
        ]
    );
    assert_eq!(conn.transcript(), "LIST UPS\n");
}

#[test]
fn query_echo_mismatch_is_a_protocol_error() {
    // the client asks LIST VAR nutdev but the server opens LIST UPS
    let script = "BEGIN LIST UPS\nUPS nutdev0 \"A NUT device.\"\nEND LIST UPS\n";
    let mut conn = attach(script);
    let got = conn.list_vars("nutdev");
    assert!(matches!(got, Err(Error::Nut(NutError::UnexpectedResponse))));
}

#[test]
fn end_echo_mismatch_is_a_protocol_error() {
    let script = "BEGIN LIST VAR nutdev\nVAR nutdev ups.status OL\nEND LIST VAR other\n";
    let mut conn = attach(script);
    let got = conn.list_vars("nutdev");
    assert!(matches!(got, Err(Error::Nut(NutError::UnexpectedResponse))));
}

#[test]
fn error_mapping_keeps_the_connection_usable() {
    // LOGIN rejected with USERNAME-REQUIRED; a USERNAME can still follow
    let script = "ERR USERNAME-REQUIRED\nOK\n";
    let mut conn = attach(script);
    let got = conn.login("nutdev");
    assert!(matches!(got, Err(Error::Nut(NutError::UsernameRequired))));
    conn.set_username("nutdev").unwrap();
    assert_eq!(conn.transcript(), "LOGIN nutdev\nUSERNAME nutdev\n");
}

#[test]
fn tls_upgrade_handshake_sequence() {
    let config = ConfigBuilder::new()
        .with_host(host("localhost"))
        .with_ssl(true)
        .with_insecure_ssl(true)
        .build();
    let script = "OK STARTTLS\nNetwork 1.2\nOK\n";
    let conn = Connection::open(config, mock(script));
    let mut conn = conn.unwrap();
    assert!(conn.is_tls_active());
    // all further traffic passes through the TLS adapter
    conn.logout().unwrap();
    assert_eq!(conn.transcript(), "STARTTLS\nNETVER\nLOGOUT\n");
}

#[test]
fn starttls_refusal_is_remapped() {
    let config = ConfigBuilder::new()
        .with_host(host("localhost"))
        .with_ssl(true)
        .build();
    let got = Connection::open(config, mock("ERR FEATURE-NOT-CONFIGURED\n"));
    assert!(matches!(got, Err(Error::Nut(NutError::SslNotSupported))));
}

#[test]
fn strict_tls_needs_a_valid_hostname() {
    // a name with a space is no DNS name: the upgrade is refused
    let config = ConfigBuilder::new()
        .with_host(host("not a host"))
        .with_ssl(true)
        .build();
    let got = Connection::open(config, mock("OK STARTTLS\nNetwork 1.2\n"));
    assert!(matches!(got, Err(Error::Nut(NutError::SslInvalidHostname))));

    // a plain valid name passes the check and the handshake goes through
    let config = ConfigBuilder::new()
        .with_host(host("upsd.example.org"))
        .with_ssl(true)
        .build();
    let conn = Connection::open(config, mock("OK STARTTLS\nNetwork 1.2\n")).unwrap();
    assert!(conn.is_tls_active());
}

#[test]
fn session_trace_list_and_logout() {
    let config = ConfigBuilder::new()
        .with_host(host("localhost"))
        .with_auth(Some(Auth::new(
            "alice".to_string(),
            Some("s3cret".to_string()),
        )))
        .build();
    let script = "OK\nOK\nBEGIN LIST UPS\nUPS a A\nUPS b B\nEND LIST UPS\nOK Goodbye\n";
    let mut conn = Connection::open(config, mock(script)).unwrap();
    let ups = conn.list_ups().unwrap();
    assert_eq!(
        ups,
        vec![
            ("a".to_string(), "A".to_string()),
            ("b".to_string(), "B".to_string()),
        ]
    );
    conn.logout().unwrap();
    assert_eq!(
        conn.transcript(),
        "USERNAME alice\nPASSWORD s3cret\nLIST UPS\nLOGOUT\n"
    );
}

#[test]
fn get_var_reads_a_well_known_variable() {
    let mut conn = attach("VAR a device.uptime 3600\n");
    let var = conn.get_var("a", "device.uptime").unwrap();
    assert_eq!(var, Variable::DeviceUptime(3600));
    assert_eq!(var.value(), "3600");
    assert_eq!(conn.transcript(), "GET VAR a device.uptime\n");
}

#[test]
fn run_command_sends_instcmd_with_argument() {
    let mut conn = attach("OK\n");
    conn.run_command("a", "load.off", Some("10")).unwrap();
    assert_eq!(conn.transcript(), "INSTCMD a load.off 10\n");
}

#[test]
fn unknown_ups_surfaces_its_typed_error() {
    let mut conn = attach("ERR UNKNOWN-UPS\n");
    let got = conn.list_vars("nope");
    assert!(matches!(got, Err(Error::Nut(NutError::UnknownUps))));
}

#[test]
fn simple_version_queries_return_the_line() {
    let mut conn = attach("Network 1.2\n2.8.0\n");
    assert_eq!(conn.get_network_version().unwrap(), "Network 1.2");
    assert_eq!(conn.get_server_version().unwrap(), "2.8.0");
    assert_eq!(conn.transcript(), "NETVER\nVERSION\n");
}

#[test]
fn get_queries_read_their_typed_rows() {
    let script = "DESC a ups.status \"UPS status\"\nNUMLOGINS a 42\nCMDDESC a load.on \"Turn on\"\nUPSDESC a \"Development box\"\nTYPE a input.transfer.low ENUM RW\n";
    let mut conn = attach(script);
    assert_eq!(
        conn.get_var_description("a", "ups.status").unwrap(),
        "UPS status"
    );
    assert_eq!(conn.get_num_logins("a").unwrap(), 42);
    assert_eq!(
        conn.get_command_description("a", "load.on").unwrap(),
        "Turn on"
    );
    assert_eq!(conn.get_ups_description("a").unwrap(), "Development box");
    let def = conn.get_var_type("a", "input.transfer.low").unwrap();
    assert!(def.is_enum() && def.is_mutable() && !def.is_string());
}

#[test]
fn remaining_list_queries_map_their_rows() {
    let mut script = String::new();
    script.push_str("BEGIN LIST CLIENT a\nCLIENT a 127.0.0.1\nEND LIST CLIENT a\n");
    script.push_str("BEGIN LIST RW a\nRW a ups.id mine\nEND LIST RW a\n");
    script.push_str("BEGIN LIST CMD a\nCMD a load.off\nEND LIST CMD a\n");
    script.push_str("BEGIN LIST RANGE a input.voltage\nRANGE a input.voltage 90 100\nEND LIST RANGE a input.voltage\n");
    script.push_str("BEGIN LIST ENUM a input.voltage\nENUM a input.voltage 103\nEND LIST ENUM a input.voltage\n");
    let mut conn = attach(&script);
    assert_eq!(conn.list_clients("a").unwrap(), vec!["127.0.0.1".to_string()]);
    assert_eq!(
        conn.list_mutable_vars("a").unwrap(),
        vec![Variable::Other("ups.id".to_string(), "mine".to_string())]
    );
    assert_eq!(conn.list_commands("a").unwrap(), vec!["load.off".to_string()]);
    let ranges = conn.list_var_range("a", "input.voltage").unwrap();
    assert_eq!(ranges.len(), 1);
    assert_eq!(ranges[0].0, "90");
    assert_eq!(ranges[0].1, "100");
    assert_eq!(
        conn.list_var_enum("a", "input.voltage").unwrap(),
        vec!["103".to_string()]
    );
}

#[test]
fn close_expects_the_goodbye() {
    let conn = attach("OK Goodbye\n");
    conn.close().unwrap();
    let conn = attach("ERR ACCESS-DENIED\n");
    assert!(matches!(
        conn.close(),
        Err(Error::Nut(NutError::AccessDenied))
    ));
}

#[test]
fn eof_while_reading_is_a_transport_error() {
    let mut conn = attach("");
    let got = conn.get_network_version();
    assert!(matches!(
        got,
        Err(Error::Io(rups::error::IoErrorKind::UnexpectedEof))
    ));
}

#[test]
fn quoted_descriptions_survive_the_round_trip() {
    let mut conn = attach("BEGIN LIST UPS\nUPS dev \"A NUT device.\"\nEND LIST UPS\n");
    let ups = conn.list_ups().unwrap();
    assert_eq!(ups, vec![("dev".to_string(), "A NUT device.".to_string())]);
}

#[test]
fn bad_numlogins_number_is_a_protocol_error() {
    let mut conn = attach("NUMLOGINS a lots\n");
    let got = conn.get_num_logins("a");
    assert!(matches!(got, Err(Error::Nut(NutError::Generic(_)))));
}
