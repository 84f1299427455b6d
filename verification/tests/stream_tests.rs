use rups::error::{Error, NutError};
use rups::sentences::{ClientSentences, ServerSentences};
use rups::stream::{ConnectionStream, MockStream};

fn mock(script: &str) -> ConnectionStream {
    ConnectionStream::Mock(MockStream::new(script.to_string()))
}

#[test]
fn read_write_sentence() {
    // Client requests list of UPS devices
    let mut client_stream = mock("").buffered();
    client_stream
        .write_server_sentence(&ServerSentences::QueryListUps {})
        .expect("Failed to write LIST UPS");

    // Server reads query for list of UPS devices
    let mut server_stream = mock(client_stream.written()).buffered();
    let sentence = server_stream
        .read_server_sentence()
        .expect("Failed to read LIST UPS");
    assert_eq!(sentence, ServerSentences::QueryListUps {});

    // Server sends list of UPS devices.
    server_stream
        .write_client_sentences(&vec![
            ClientSentences::BeginListUps {},
            ClientSentences::RespondUps {
                ups_name: "nutdev0".into(),
                description: "A NUT device.".into(),
            },
            ClientSentences::RespondUps {
                ups_name: "nutdev1".into(),
                description: "Another NUT device.".into(),
            },
            ClientSentences::EndListUps {},
        ])
        .expect("Failed to write UPS LIST");

    // Client reads list of UPS devices.
    let mut client_stream = mock(server_stream.written()).buffered();
    let begin = client_stream
        .read_client_sentence()
        .expect("Failed to read BEGIN LIST UPS");
    assert_eq!(begin, ClientSentences::BeginListUps {});

    let sentences: Vec<ClientSentences> = client_stream
        .read_client_sentences_until(&ClientSentences::EndListUps {})
        .expect("Failed to read UPS items");

    assert_eq!(
        sentences,
        vec![
            ClientSentences::RespondUps {
                ups_name: "nutdev0".into(),
                description: "A NUT device.".into(),
            },
            ClientSentences::RespondUps {
                ups_name: "nutdev1".into(),
                description: "Another NUT device.".into(),
            },
        ]
    );

    // Client sends login
    let mut client_out = mock("").buffered();
    client_out
        .write_server_sentence(&ServerSentences::ExecLogin {
            ups_name: "nutdev0".into(),
        })
        .expect("Failed to write LOGIN nutdev0");

    // Server receives login
    let mut server_stream = mock(client_out.written()).buffered();
    let login = server_stream
        .read_server_sentence()
        .expect("Failed to read LOGIN nutdev0");
    assert_eq!(
        login,
        ServerSentences::ExecLogin {
            ups_name: "nutdev0".into(),
        }
    );

    // Server rejects login
    server_stream
        .write_client_sentence(&ClientSentences::RespondErr {
            message: "USERNAME-REQUIRED".into(),
            extras: vec![],
        })
        .expect("Failed to write ERR USERNAME-REQUIRED");

    // Client expects error
    let mut client_in = mock(server_stream.written()).buffered();
    let error: Error = client_in
        .read_client_sentence()
        .expect_err("Failed to read ERR");
    assert!(matches!(error, Error::Nut(NutError::UsernameRequired)));
}

#[test]
fn unbuffered_stream_refuses_line_reads() {
    let mut plain = mock("VAR a b c\n");
    assert!(plain.read_client_sentence().is_err());
    let mut buffered = mock("").buffered();
    // end of stream surfaces as a transport EOF
    assert!(matches!(
        buffered.read_client_sentence(),
        Err(Error::Io(rups::error::IoErrorKind::UnexpectedEof))
    ));
}

#[test]
fn unbalanced_line_is_not_processable() {
    let mut stream = mock("\"AbC dEf GHi\n").buffered();
    assert!(matches!(
        stream.read_client_sentence(),
        Err(Error::Nut(NutError::NotProcessable))
    ));
}

#[test]
fn buffering_toggles_and_tls_upgrade_wraps() {
    let stream = mock("");
    assert!(!stream.is_buffered());
    let stream = stream.buffered();
    assert!(stream.is_buffered());
    let stream = stream.unbuffered();
    assert!(!stream.is_buffered());
    let session = rups::ssl::TlsClientSession {
        insecure: true,
        server_name: "placeholder.invalid".to_string(),
    };
    let upgraded = stream.upgrade_ssl_client(session).unwrap();
    assert!(upgraded.has_tls());
    assert!(upgraded.buffered().has_tls());
}
