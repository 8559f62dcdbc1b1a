use socksv5_future::client::socks_connect_handshake;
use socksv5_future::handshake::{Action, Event, HandshakeError};
use socksv5_future::msg::{encode_request, Address};
use socksv5_future::v5;

#[test]
fn client_handshake_completes_with_ipv4_reply() {
    let request = encode_request(v5::CMD_CONNECT, &Address::V4(10, 0, 0, 1), 80);
    let request_bytes = request.bytes.clone();
    let (mut m, a) = socks_connect_handshake(request);
    assert_eq!(a, Action::Write(vec![5, 1, 0]));
    let a = m.step(Event::WriteCompleted);
    assert_eq!(a, Action::Read(2));
    let a = m.step(Event::ReadCompleted(vec![5, 0]));
    assert_eq!(a, Action::Write(request_bytes));
    let a = m.step(Event::WriteCompleted);
    assert_eq!(a, Action::Read(6));
    let a = m.step(Event::ReadCompleted(vec![5, 0, 0, 1, 127, 0]));
    assert_eq!(a, Action::Read(4));
    let a = m.step(Event::ReadCompleted(vec![0, 1, 4, 56]));
    match a {
        Action::Done(reply) => {
            assert_eq!(reply.bytes, vec![5, 0, 0, 1, 127, 0, 0, 1, 4, 56]);
            assert_eq!(reply.reply_code(), v5::REP_SUCCEEDED);
            assert_eq!(reply.address(), Address::V4(127, 0, 0, 1));
            assert_eq!(reply.port(), 1080);
        }
        other => panic!("expected the assembled reply, got {:?}", other),
    }
}

#[test]
fn client_request_bytes_are_sent_verbatim() {
    let request = encode_request(v5::CMD_BIND, &Address::Domain(b"example.com".to_vec()), 443);
    let expected = request.bytes.clone();
    let (mut m, _) = socks_connect_handshake(request);
    m.step(Event::WriteCompleted);
    let a = m.step(Event::ReadCompleted(vec![5, 0]));
    assert_eq!(a, Action::Write(expected));
}

#[test]
fn client_rejects_selection_version_mismatch() {
    let request = encode_request(v5::CMD_CONNECT, &Address::V4(10, 0, 0, 1), 80);
    let (mut m, _) = socks_connect_handshake(request);
    m.step(Event::WriteCompleted);
    let a = m.step(Event::ReadCompleted(vec![4, 0]));
    assert_eq!(a, Action::Fail(HandshakeError::ProtocolVersionMismatch));
}

#[test]
fn client_rejects_other_method_selection() {
    let request = encode_request(v5::CMD_CONNECT, &Address::V4(10, 0, 0, 1), 80);
    let (mut m, _) = socks_connect_handshake(request);
    m.step(Event::WriteCompleted);
    let a = m.step(Event::ReadCompleted(vec![5, 255]));
    assert_eq!(a, Action::Fail(HandshakeError::NoAcceptableAuthMethod));
}

#[test]
fn client_rejects_reply_reserved_violation() {
    let request = encode_request(v5::CMD_CONNECT, &Address::V4(10, 0, 0, 1), 80);
    let (mut m, _) = socks_connect_handshake(request);
    m.step(Event::WriteCompleted);
    m.step(Event::ReadCompleted(vec![5, 0]));
    m.step(Event::WriteCompleted);
    let a = m.step(Event::ReadCompleted(vec![5, 0, 1, 1, 127, 0]));
    assert_eq!(a, Action::Fail(HandshakeError::ReservedFieldViolation));
}

#[test]
fn client_rejects_reply_unknown_address_type() {
    let request = encode_request(v5::CMD_CONNECT, &Address::V4(10, 0, 0, 1), 80);
    let (mut m, _) = socks_connect_handshake(request);
    m.step(Event::WriteCompleted);
    m.step(Event::ReadCompleted(vec![5, 0]));
    m.step(Event::WriteCompleted);
    let a = m.step(Event::ReadCompleted(vec![5, 0, 0, 9, 127, 0]));
    assert_eq!(a, Action::Fail(HandshakeError::UnsupportedAddressType));
}

#[test]
fn client_reply_domain_tail_length() {
    let request = encode_request(v5::CMD_CONNECT, &Address::Domain(b"a".to_vec()), 1);
    let (mut m, _) = socks_connect_handshake(request);
    m.step(Event::WriteCompleted);
    m.step(Event::ReadCompleted(vec![5, 0]));
    m.step(Event::WriteCompleted);
    let a = m.step(Event::ReadCompleted(vec![5, 0, 0, 3, 4, b'h']));
    assert_eq!(a, Action::Read(5));
    let a = m.step(Event::ReadCompleted(vec![b'o', b's', b't', 0, 80]));
    match a {
        Action::Done(reply) => {
            assert_eq!(reply.hostname(), Some(b"host".to_vec()));
            assert_eq!(reply.port(), 80);
        }
        other => panic!("expected the assembled reply, got {:?}", other),
    }
}

#[test]
fn client_truncated_selection_fails_with_end_of_stream() {
    let request = encode_request(v5::CMD_CONNECT, &Address::V4(10, 0, 0, 1), 80);
    let (mut m, _) = socks_connect_handshake(request);
    m.step(Event::WriteCompleted);
    let a = m.step(Event::StreamEnded);
    assert_eq!(a, Action::Fail(HandshakeError::UnexpectedEndOfStream));
}

#[test]
fn client_transport_error_fails_with_io_failure() {
    let request = encode_request(v5::CMD_CONNECT, &Address::V4(10, 0, 0, 1), 80);
    let (mut m, _) = socks_connect_handshake(request);
    let a = m.step(Event::TransportFailed);
    assert_eq!(a, Action::Fail(HandshakeError::UnderlyingIoFailure));
}
