use unbuffered_tls::{
    all_versions, ClientConfig, ConnectionState, EarlyDataError, EncodeError, EncryptError, Error,
    InsufficientSizeError, ProtocolVersion, Provider, RootCertStore, ServerConfig, StateKind,
    UnbufferedClientConnection, UnbufferedServerConnection,
};

const CERT: &[u8] = b"localhost test certificate";

fn client_config(versions: &[ProtocolVersion], cert: &[u8]) -> ClientConfig {
    let mut roots = RootCertStore::empty();
    roots.add(cert.to_vec());
    ClientConfig::new(Provider::certificate_verifier(roots), versions)
}

fn new_client(versions: &[ProtocolVersion]) -> UnbufferedClientConnection {
    UnbufferedClientConnection::new(client_config(versions, CERT), b"localhost".to_vec()).unwrap()
}

fn new_server() -> UnbufferedServerConnection {
    UnbufferedServerConnection::new(ServerConfig::new(CERT.to_vec()).unwrap()).unwrap()
}

/// Runs one advance of the client: encodes, transmits, and returns the kind.
fn step_client(conn: &mut UnbufferedClientConnection, incoming: &mut Vec<u8>, outgoing: &mut Vec<u8>) -> StateKind {
    let status = conn.process_tls_records(incoming.as_mut_slice());
    let discard = status.discard;
    let state = status.state.unwrap();
    let kind = state.kind();
    match state {
        ConnectionState::MustEncodeTlsData(mut g) => {
            let mut buf = vec![0u8; 20000];
            let n = g.encode(&mut buf).unwrap();
            outgoing.extend_from_slice(&buf[..n]);
        }
        ConnectionState::MustTransmitTlsData(g) => g.done(),
        _ => {}
    }
    incoming.drain(..discard);
    kind
}

fn step_server(conn: &mut UnbufferedServerConnection, incoming: &mut Vec<u8>, outgoing: &mut Vec<u8>) -> StateKind {
    let status = conn.process_tls_records(incoming.as_mut_slice());
    let discard = status.discard;
    let state = status.state.unwrap();
    let kind = state.kind();
    match state {
        ConnectionState::MustEncodeTlsData(mut g) => {
            let mut buf = vec![0u8; 20000];
            let n = g.encode(&mut buf).unwrap();
            outgoing.extend_from_slice(&buf[..n]);
        }
        ConnectionState::MustTransmitTlsData(g) => g.done(),
        _ => {}
    }
    incoming.drain(..discard);
    kind
}

/// Drives both sides until each reports `TrafficTransit` with nothing in flight.
fn connected(version: ProtocolVersion) -> (UnbufferedClientConnection, UnbufferedServerConnection) {
    let mut client = new_client(&[version]);
    let mut server = new_server();
    let mut to_server: Vec<u8> = Vec::new();
    let mut to_client: Vec<u8> = Vec::new();
    for _ in 0..100 {
        let c = step_client(&mut client, &mut to_client, &mut to_server);
        let s = step_server(&mut server, &mut to_server, &mut to_client);
        if c == StateKind::TrafficTransit && s == StateKind::TrafficTransit && to_server.is_empty() && to_client.is_empty() {
            return (client, server);
        }
    }
    panic!("handshake did not complete");
}

fn record(typ: u8, payload: &[u8]) -> Vec<u8> {
    let mut r = vec![typ, 3, 3, (payload.len() / 256) as u8, (payload.len() % 256) as u8];
    r.extend_from_slice(payload);
    r
}

fn server_error(mut bytes: Vec<u8>) -> Error {
    let mut server = new_server();
    let status = server.process_tls_records(&mut bytes);
    match status.state {
        Err(e) => e,
        Ok(s) => panic!("expected an error, got {:?}", s.kind()),
    }
}

#[test]
fn state_kind_names() {
    assert_eq!(format!("{:?}", StateKind::NeedsMoreTlsData { num_bytes: None }), "NeedsMoreTlsData { num_bytes: None }");
    assert_eq!(format!("{:?}", StateKind::TrafficTransit), "TrafficTransit");
}

#[test]
fn partial_record_needs_more_and_discards_nothing() {
    let mut server = new_server();
    let mut buf = vec![22u8, 3, 3, 0, 10, 1, 2];
    let status = server.process_tls_records(&mut buf);
    assert_eq!(status.discard, 0);
    assert_eq!(status.state.unwrap().kind(), StateKind::NeedsMoreTlsData { num_bytes: None });
}

#[test]
fn empty_buffer_client_first_encodes_hello() {
    let mut client = new_client(&all_versions());
    let mut buf: Vec<u8> = Vec::new();
    let status = client.process_tls_records(&mut buf);
    assert_eq!(status.discard, 0);
    assert_eq!(status.state.unwrap().kind(), StateKind::MustEncodeTlsData);
}

#[test]
fn unknown_content_type_is_corrupt() {
    assert_eq!(server_error(vec![99, 3, 3, 0, 0]), Error::CorruptMessage);
    assert_eq!(server_error(vec![22, 7, 3, 0, 0]), Error::CorruptMessage);
}

#[test]
fn oversized_record_is_refused() {
    assert_eq!(server_error(vec![22, 3, 3, 0xff, 0xff]), Error::RecordTooLarge);
}

#[test]
fn short_handshake_message_is_invalid() {
    assert_eq!(server_error(record(22, &[1])), Error::InvalidHandshakeMessage);
}

#[test]
fn application_data_before_handshake_is_inappropriate() {
    assert_eq!(server_error(record(23, b"hi")), Error::InappropriateMessage);
}

#[test]
fn fatal_alert_is_reported() {
    assert_eq!(server_error(record(21, &[2, 40])), Error::AlertReceived(40));
}

#[test]
fn errors_stay_sticky() {
    let mut server = new_server();
    let mut bad = vec![99u8, 3, 3, 0, 0];
    let first = server.process_tls_records(&mut bad);
    assert_eq!(first.state.err(), Some(Error::CorruptMessage));
    let mut good: Vec<u8> = Vec::new();
    let second = server.process_tls_records(&mut good);
    assert_eq!(second.discard, 0);
    assert_eq!(second.state.err(), Some(Error::CorruptMessage));
    let mut hello = record(22, &[1, 0, 0, 0]);
    let third = server.process_tls_records(&mut hello);
    assert_eq!(third.state.err(), Some(Error::CorruptMessage));
}

#[test]
fn untrusted_certificate_is_refused() {
    let mut client =
        UnbufferedClientConnection::new(client_config(&[ProtocolVersion::TLSv1_3], b"other"), b"localhost".to_vec()).unwrap();
    let mut server = new_server();
    let mut to_server: Vec<u8> = Vec::new();
    let mut to_client: Vec<u8> = Vec::new();
    for _ in 0..20 {
        let status = client.process_tls_records(&mut to_client);
        let discard = status.discard;
        match status.state {
            Err(e) => {
                assert_eq!(e, Error::InvalidCertificate);
                return;
            }
            Ok(ConnectionState::MustEncodeTlsData(mut g)) => {
                let mut buf = vec![0u8; 20000];
                let n = g.encode(&mut buf).unwrap();
                to_server.extend_from_slice(&buf[..n]);
            }
            Ok(ConnectionState::MustTransmitTlsData(g)) => g.done(),
            Ok(_) => {}
        }
        to_client.drain(..discard);
        step_server(&mut server, &mut to_server, &mut to_client);
    }
    panic!("certificate was accepted");
}

#[test]
fn unsupported_version_is_incompatible() {
    let mut client = new_client(&[ProtocolVersion::TLSv1_2]);
    let mut hello = vec![2u8, 0, 0, 34, 4, 0];
    hello.extend_from_slice(&[0u8; 32]);
    let mut buf = record(22, &hello);
    let mut sink: Vec<u8> = Vec::new();
    assert_eq!(step_client(&mut client, &mut Vec::new(), &mut sink), StateKind::MustEncodeTlsData);
    assert_eq!(step_client(&mut client, &mut Vec::new(), &mut sink), StateKind::MustTransmitTlsData);
    let status = client.process_tls_records(&mut buf);
    assert_eq!(status.state.err(), Some(Error::PeerIncompatible));
}

#[test]
fn config_without_versions_is_refused() {
    let r = UnbufferedClientConnection::new(client_config(&[], CERT), b"localhost".to_vec());
    assert_eq!(r.err(), Some(Error::NoVersionsEnabled));
}

#[test]
fn server_config_with_bad_key_is_refused() {
    let mut config = ServerConfig::new(CERT.to_vec()).unwrap();
    config.ticket_key.push(0);
    assert_eq!(UnbufferedServerConnection::new(config).err(), Some(Error::InvalidConfiguration));
}

#[test]
fn ticket_keys_are_random() {
    let a = ServerConfig::new(CERT.to_vec()).unwrap();
    let b = ServerConfig::new(CERT.to_vec()).unwrap();
    assert_eq!(a.ticket_key.len(), 16);
    assert_ne!(a.ticket_key, b.ticket_key);
}

#[test]
fn zero_length_buffer_leaves_encode_retryable() {
    let mut client = new_client(&all_versions());
    let mut buf: Vec<u8> = Vec::new();
    let status = client.process_tls_records(&mut buf);
    match status.state.unwrap() {
        ConnectionState::MustEncodeTlsData(mut g) => {
            let mut empty: [u8; 0] = [];
            let required = match g.encode(&mut empty) {
                Err(EncodeError::InsufficientSize(InsufficientSizeError { required_size })) => required_size,
                other => panic!("{other:?}"),
            };
            assert!(required > 0);
            let mut small = vec![7u8; required - 1];
            assert!(g.encode(&mut small).is_err());
            assert!(small.iter().all(|b| *b == 7));
            let mut out = vec![0u8; required + 3];
            assert_eq!(g.encode(&mut out).unwrap(), required);
            assert_eq!(out[0], 22);
            assert_eq!(&out[required..], &[0, 0, 0]);
            assert_eq!(g.encode(&mut out), Err(EncodeError::AlreadyEncoded));
        }
        other => panic!("{:?}", other.kind()),
    }
}

#[test]
fn encrypt_reports_exact_size() {
    let (mut client, _server) = connected(ProtocolVersion::TLSv1_3);
    let mut buf: Vec<u8> = Vec::new();
    let status = client.process_tls_records(&mut buf);
    match status.state.unwrap() {
        ConnectionState::TrafficTransit(mut g) => {
            let mut empty: [u8; 0] = [];
            assert_eq!(
                g.encrypt(b"hello", &mut empty),
                Err(EncryptError::InsufficientSize(InsufficientSizeError { required_size: 10 }))
            );
            let mut out = vec![0u8; 10];
            assert_eq!(g.encrypt(b"hello", &mut out), Ok(10));
            assert_eq!(out, vec![23, 3, 3, 0, 5, b'h', b'e', b'l', b'l', b'o']);
            assert_eq!(
                g.encrypt(b"", &mut empty),
                Err(EncryptError::InsufficientSize(InsufficientSizeError { required_size: 5 }))
            );
            let mut blank = vec![9u8; 6];
            assert_eq!(g.encrypt(b"", &mut blank), Ok(5));
            assert_eq!(blank, vec![23, 3, 3, 0, 0, 9]);
            assert_eq!(
                g.queue_close_notify(&mut empty),
                Err(EncryptError::InsufficientSize(InsufficientSizeError { required_size: 7 }))
            );
            let mut alert = vec![0u8; 7];
            assert_eq!(g.queue_close_notify(&mut alert), Ok(7));
            assert_eq!(alert, vec![21, 3, 3, 0, 2, 1, 0]);
        }
        other => panic!("{:?}", other.kind()),
    }
}

#[test]
fn large_payload_is_fragmented() {
    let (mut client, _server) = connected(ProtocolVersion::TLSv1_2);
    let mut buf: Vec<u8> = Vec::new();
    let status = client.process_tls_records(&mut buf);
    match status.state.unwrap() {
        ConnectionState::TrafficTransit(mut g) => {
            let data = vec![1u8; 16385];
            let mut out = vec![0u8; 16395];
            assert_eq!(g.encrypt(&data, &mut out), Ok(16395));
            assert_eq!(&out[..5], &[23, 3, 3, 64, 0]);
            assert_eq!(&out[16389..16394], &[23, 3, 3, 0, 1]);
        }
        other => panic!("{:?}", other.kind()),
    }
}

#[test]
fn plaintext_is_drained_before_close() {
    for version in all_versions() {
        let (mut client, _server) = connected(version);
        let mut buf = record(23, b"hello");
        buf.extend_from_slice(&record(23, b"world"));
        buf.extend_from_slice(&record(21, &[1, 0]));
        let mut kinds = Vec::new();
        let mut payloads = Vec::new();
        for _ in 0..4 {
            let status = client.process_tls_records(&mut buf);
            let discard = status.discard;
            let state = status.state.unwrap();
            kinds.push(state.kind());
            if let ConnectionState::AppDataAvailable(mut g) = state {
                assert_eq!(g.peek_len(), Some(5));
                while let Some(rec) = g.next_record() {
                    let rec = rec.unwrap();
                    assert_eq!(rec.discard, 0);
                    payloads.push(rec.payload.to_vec());
                }
                assert_eq!(g.peek_len(), None);
            }
            buf.drain(..discard);
        }
        assert_eq!(
            kinds,
            vec![
                StateKind::AppDataAvailable,
                StateKind::AppDataAvailable,
                StateKind::ConnectionClosed,
                StateKind::ConnectionClosed
            ]
        );
        assert_eq!(payloads, vec![b"hello".to_vec(), b"world".to_vec()]);
    }
}

#[test]
fn traffic_permission_survives_further_records() {
    let (mut client, _server) = connected(ProtocolVersion::TLSv1_3);
    let mut buf = record(23, b"x");
    let status = client.process_tls_records(&mut buf);
    let discard = status.discard;
    assert_eq!(status.state.unwrap().kind(), StateKind::AppDataAvailable);
    buf.drain(..discard);
    let status = client.process_tls_records(&mut buf);
    match status.state.unwrap() {
        ConnectionState::TrafficTransit(_) => {}
        other => panic!("{:?}", other.kind()),
    }
}

#[test]
fn consumed_bytes_may_be_overwritten() {
    let (mut client, _server) = connected(ProtocolVersion::TLSv1_2);
    let mut buf = record(23, b"hello");
    buf.extend_from_slice(&[23, 3, 3]);
    let status = client.process_tls_records(&mut buf);
    let discard = status.discard;
    assert_eq!(discard, 10);
    match status.state.unwrap() {
        ConnectionState::AppDataAvailable(mut g) => {
            let rec = g.next_record().unwrap().unwrap();
            assert_eq!(rec.payload, b"hello");
        }
        other => panic!("{:?}", other.kind()),
    }
    for b in buf[..discard].iter_mut() {
        *b = 0xee;
    }
    buf.drain(..discard);
    let status = client.process_tls_records(&mut buf);
    assert_eq!(status.discard, 0);
    assert_eq!(status.state.unwrap().kind(), StateKind::TrafficTransit);
    buf.extend_from_slice(&[0, 1, b'!']);
    let status = client.process_tls_records(&mut buf);
    assert_eq!(status.discard, 6);
    match status.state.unwrap() {
        ConnectionState::AppDataAvailable(mut g) => {
            assert_eq!(g.next_record().unwrap().unwrap().payload, b"!");
        }
        other => panic!("{:?}", other.kind()),
    }
}

#[test]
fn early_data_beyond_budget_is_refused_by_server() {
    let mut config = ServerConfig::new(CERT.to_vec()).unwrap();
    config.max_early_data_size = 4;
    let mut hello = vec![1u8, 0, 0, 0, 0, 1, 1];
    hello.extend_from_slice(&[0u8; 32]);
    hello.extend_from_slice(&config.ticket_key);
    hello.push(0);
    let len = hello.len() - 4;
    hello[2] = (len / 256) as u8;
    hello[3] = (len % 256) as u8;
    let mut server = UnbufferedServerConnection::new(config).unwrap();
    let mut buf = record(22, &hello);
    buf.extend_from_slice(&record(23, b"hello"));
    let mut out: Vec<u8> = Vec::new();
    let mut result = None;
    for _ in 0..20 {
        let status = server.process_tls_records(&mut buf);
        let discard = status.discard;
        match status.state {
            Err(e) => {
                result = Some(e);
                break;
            }
            Ok(ConnectionState::MustEncodeTlsData(mut g)) => {
                let mut b = vec![0u8; 20000];
                let n = g.encode(&mut b).unwrap();
                out.extend_from_slice(&b[..n]);
            }
            Ok(ConnectionState::MustTransmitTlsData(g)) => g.done(),
            Ok(other) => panic!("{:?}", other.kind()),
        }
        buf.drain(..discard);
    }
    assert_eq!(result, Some(Error::PeerSentTooMuchEarlyData));
}

#[test]
fn early_data_beyond_budget_is_refused_by_client() {
    let mut server_config = ServerConfig::new(CERT.to_vec()).unwrap();
    server_config.max_early_data_size = 8;
    let mut config = client_config(&[ProtocolVersion::TLSv1_3], CERT);
    config.enable_early_data = true;
    let mut client = UnbufferedClientConnection::new(config.clone(), b"localhost".to_vec()).unwrap();
    let mut server = UnbufferedServerConnection::new(server_config.clone()).unwrap();
    let mut to_server: Vec<u8> = Vec::new();
    let mut to_client: Vec<u8> = Vec::new();
    for _ in 0..40 {
        step_client(&mut client, &mut to_client, &mut to_server);
        step_server(&mut server, &mut to_server, &mut to_client);
    }
    config.resumption = client.resumption_ticket();
    assert_eq!(config.resumption.as_ref().map(|t| t.max_early_data_size), Some(8));
    let mut client = UnbufferedClientConnection::new(config, b"localhost".to_vec()).unwrap();
    let mut empty: Vec<u8> = Vec::new();
    let mut sink: Vec<u8> = Vec::new();
    assert_eq!(step_client(&mut client, &mut empty, &mut sink), StateKind::MustEncodeTlsData);
    assert_eq!(step_client(&mut client, &mut empty, &mut sink), StateKind::MustEncodeTlsData);
    let status = client.process_tls_records(&mut empty);
    match status.state.unwrap() {
        ConnectionState::MustTransmitTlsData(mut g) => {
            {
                let mut early = g.may_encrypt_early_data().unwrap();
                let mut out = vec![0u8; 100];
                assert_eq!(early.encrypt(b"too long data", &mut out), Err(EarlyDataError::ExceededAllowedEarlyData));
                assert_eq!(early.encrypt(b"12345", &mut out), Ok(10));
                assert_eq!(early.encrypt(b"1234", &mut out), Err(EarlyDataError::ExceededAllowedEarlyData));
            }
            assert!(g.may_encrypt_app_data().is_none());
            g.done();
        }
        other => panic!("{:?}", other.kind()),
    }
}

#[test]
fn early_data_is_not_offered_without_ticket() {
    let mut config = client_config(&[ProtocolVersion::TLSv1_3], CERT);
    config.enable_early_data = true;
    let mut client = UnbufferedClientConnection::new(config, b"localhost".to_vec()).unwrap();
    let mut empty: Vec<u8> = Vec::new();
    let mut sink: Vec<u8> = Vec::new();
    assert_eq!(step_client(&mut client, &mut empty, &mut sink), StateKind::MustEncodeTlsData);
    let status = client.process_tls_records(&mut empty);
    match status.state.unwrap() {
        ConnectionState::MustTransmitTlsData(mut g) => {
            assert!(g.may_encrypt_early_data().is_none());
            g.done();
        }
        other => panic!("{:?}", other.kind()),
    }
}

#[test]
fn error_messages_name_the_size() {
    let e = EncodeError::InsufficientSize(InsufficientSizeError { required_size: 120 });
    assert_eq!(e.message(), "cannot encode due to insufficient size, 120 bytes are required");
    assert_eq!(EncodeError::AlreadyEncoded.message(), "cannot encode, data has already been encoded");
    let e = EncryptError::InsufficientSize(InsufficientSizeError { required_size: 7 });
    assert_eq!(e.message(), "cannot encrypt due to insufficient size, 7 bytes are required");
    assert_eq!(EncryptError::EncryptExhausted.message(), "encrypter has been exhausted");
}

#[test]
fn from_insufficient_size() {
    let i = InsufficientSizeError { required_size: 3 };
    assert_eq!(EncodeError::from(i), EncodeError::InsufficientSize(i));
    assert_eq!(EncryptError::from(i), EncryptError::InsufficientSize(i));
}

#[test]
fn bad_server_name_is_refused() {
    let r = UnbufferedClientConnection::new(client_config(&all_versions(), CERT), b"local host".to_vec());
    assert_eq!(r.err(), Some(Error::InvalidServerName));
    let r = UnbufferedClientConnection::new(client_config(&all_versions(), CERT), Vec::new());
    assert_eq!(r.err(), Some(Error::InvalidServerName));
    let r = UnbufferedClientConnection::new(client_config(&all_versions(), CERT), b"127.0.0.1".to_vec());
    assert!(r.is_ok());
}

#[test]
fn first_flight_carries_the_random() {
    let random = [7u8; 32];
    let mut client = UnbufferedClientConnection::new_with_random(
        client_config(&[ProtocolVersion::TLSv1_3], CERT),
        b"localhost".to_vec(),
        &random,
    )
    .unwrap();
    let mut empty: Vec<u8> = Vec::new();
    let status = client.process_tls_records(&mut empty);
    match status.state.unwrap() {
        ConnectionState::MustEncodeTlsData(mut g) => {
            let mut out = vec![0u8; 100];
            let n = g.encode(&mut out).unwrap();
            let mut expected = vec![22u8, 3, 3, 0, 39, 1, 0, 0, 35, 0, 1, 0];
            expected.extend_from_slice(&random);
            assert_eq!(&out[..n], expected.as_slice());
        }
        other => panic!("{:?}", other.kind()),
    }
    let status = client.process_tls_records(&mut empty);
    assert_eq!(status.state.unwrap().kind(), StateKind::MustTransmitTlsData);
}

#[test]
fn oversized_certificate_is_refused() {
    assert_eq!(ServerConfig::new(vec![0u8; 16001]).err(), Some(Error::InvalidConfiguration));
}
