use socksv5_future::handshake::{Action, Event, HandshakeError};
use socksv5_future::msg::{Address, Command};
use socksv5_future::server::socks_handshake;

#[test]
fn minimum_greeting_reaches_request_phase() {
    let (mut m, a) = socks_handshake();
    assert_eq!(a, Action::Read(2));
    let a = m.step(Event::ReadCompleted(vec![5, 1]));
    assert_eq!(a, Action::Read(1));
    let a = m.step(Event::ReadCompleted(vec![0]));
    assert_eq!(a, Action::Write(vec![5, 0]));
    let a = m.step(Event::WriteCompleted);
    assert_eq!(a, Action::Read(6));
}

#[test]
fn gssapi_only_is_rejected_after_flush() {
    let (mut m, a) = socks_handshake();
    assert_eq!(a, Action::Read(2));
    let a = m.step(Event::ReadCompleted(vec![5, 1]));
    assert_eq!(a, Action::Read(1));
    let a = m.step(Event::ReadCompleted(vec![1]));
    assert_eq!(a, Action::Write(vec![5, 255]));
    let a = m.step(Event::WriteCompleted);
    assert_eq!(a, Action::Fail(HandshakeError::NoAcceptableAuthMethod));
}

#[test]
fn no_auth_among_several_methods_is_selected() {
    let (mut m, _) = socks_handshake();
    let a = m.step(Event::ReadCompleted(vec![5, 3]));
    assert_eq!(a, Action::Read(3));
    let a = m.step(Event::ReadCompleted(vec![1, 2, 0]));
    assert_eq!(a, Action::Write(vec![5, 0]));
}

#[test]
fn ipv4_request_consumes_ten_bytes() {
    let (mut m, _) = socks_handshake();
    m.step(Event::ReadCompleted(vec![5, 1]));
    m.step(Event::ReadCompleted(vec![0]));
    m.step(Event::WriteCompleted);
    let a = m.step(Event::ReadCompleted(vec![5, 1, 0, 1, 10, 0]));
    assert_eq!(a, Action::Read(4));
    let a = m.step(Event::ReadCompleted(vec![0, 1, 0, 80]));
    match a {
        Action::Done(req) => {
            assert_eq!(req.bytes.len(), 10);
            assert_eq!(req.command(), Command::Connect);
            assert_eq!(req.address(), Address::V4(10, 0, 0, 1));
            assert_eq!(req.port(), 80);
        }
        other => panic!("expected the assembled request, got {:?}", other),
    }
}

#[test]
fn ipv6_request_needs_sixteen_more_bytes() {
    let (mut m, _) = socks_handshake();
    m.step(Event::ReadCompleted(vec![5, 1]));
    m.step(Event::ReadCompleted(vec![0]));
    m.step(Event::WriteCompleted);
    let a = m.step(Event::ReadCompleted(vec![5, 3, 0, 4, 0x20, 0x01]));
    assert_eq!(a, Action::Read(16));
    let a = m.step(Event::ReadCompleted(vec![0, 0, 0, 0, 0, 0, 0, 0, 0, 0, 0, 0, 0, 1, 1, 187]));
    match a {
        Action::Done(req) => {
            assert_eq!(req.command(), Command::UdpAssociate);
            assert_eq!(req.address(), Address::V6(0x2001, 0, 0, 0, 0, 0, 0, 1));
            assert_eq!(req.port(), 443);
        }
        other => panic!("expected the assembled request, got {:?}", other),
    }
}

#[test]
fn domain_request_length_comes_from_length_byte() {
    let (mut m, _) = socks_handshake();
    m.step(Event::ReadCompleted(vec![5, 1]));
    m.step(Event::ReadCompleted(vec![0]));
    m.step(Event::WriteCompleted);
    let a = m.step(Event::ReadCompleted(vec![5, 1, 0, 3, 11, b'e']));
    assert_eq!(a, Action::Read(12));
    let mut tail = b"xample.com".to_vec();
    tail.extend_from_slice(&[1, 187]);
    let a = m.step(Event::ReadCompleted(tail));
    match a {
        Action::Done(req) => {
            assert_eq!(req.hostname(), Some(b"example.com".to_vec()));
            assert_eq!(req.port(), 443);
        }
        other => panic!("expected the assembled request, got {:?}", other),
    }
}

#[test]
fn greeting_version_mismatch_fails() {
    let (mut m, _) = socks_handshake();
    let a = m.step(Event::ReadCompleted(vec![4, 1]));
    assert_eq!(a, Action::Fail(HandshakeError::ProtocolVersionMismatch));
}

#[test]
fn greeting_with_zero_methods_fails() {
    let (mut m, _) = socks_handshake();
    let a = m.step(Event::ReadCompleted(vec![5, 0]));
    assert_eq!(a, Action::Fail(HandshakeError::MalformedGreeting));
}

#[test]
fn request_version_mismatch_fails() {
    let (mut m, _) = socks_handshake();
    m.step(Event::ReadCompleted(vec![5, 1]));
    m.step(Event::ReadCompleted(vec![0]));
    m.step(Event::WriteCompleted);
    let a = m.step(Event::ReadCompleted(vec![4, 1, 0, 1, 10, 0]));
    assert_eq!(a, Action::Fail(HandshakeError::ProtocolVersionMismatch));
}

#[test]
fn nonzero_reserved_byte_fails() {
    let (mut m, _) = socks_handshake();
    m.step(Event::ReadCompleted(vec![5, 1]));
    m.step(Event::ReadCompleted(vec![0]));
    m.step(Event::WriteCompleted);
    let a = m.step(Event::ReadCompleted(vec![5, 1, 7, 1, 10, 0]));
    assert_eq!(a, Action::Fail(HandshakeError::ReservedFieldViolation));
}

#[test]
fn unknown_address_type_fails() {
    let (mut m, _) = socks_handshake();
    m.step(Event::ReadCompleted(vec![5, 1]));
    m.step(Event::ReadCompleted(vec![0]));
    m.step(Event::WriteCompleted);
    let a = m.step(Event::ReadCompleted(vec![5, 1, 0, 2, 10, 0]));
    assert_eq!(a, Action::Fail(HandshakeError::UnsupportedAddressType));
}

#[test]
fn truncated_greeting_fails_with_end_of_stream() {
    let (mut m, a) = socks_handshake();
    assert_eq!(a, Action::Read(2));
    let a = m.step(Event::StreamEnded);
    assert_eq!(a, Action::Fail(HandshakeError::UnexpectedEndOfStream));
}

#[test]
fn transport_error_fails_with_io_failure() {
    let (mut m, _) = socks_handshake();
    m.step(Event::ReadCompleted(vec![5, 1]));
    let a = m.step(Event::TransportFailed);
    assert_eq!(a, Action::Fail(HandshakeError::UnderlyingIoFailure));
}

#[test]
fn unknown_command_is_surfaced_not_rejected() {
    let (mut m, _) = socks_handshake();
    m.step(Event::ReadCompleted(vec![5, 1]));
    m.step(Event::ReadCompleted(vec![0]));
    m.step(Event::WriteCompleted);
    m.step(Event::ReadCompleted(vec![5, 9, 0, 1, 10, 0]));
    let a = m.step(Event::ReadCompleted(vec![0, 1, 0, 80]));
    match a {
        Action::Done(req) => assert_eq!(req.command(), Command::Unknown(9)),
        other => panic!("expected the assembled request, got {:?}", other),
    }
}
