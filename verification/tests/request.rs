use socks5_server::address::IpAddress;
use socks5_server::address::SocketAddress;
use socks5_server::error::IoErrorKind;
use socks5_server::request::classify_connect;
use socks5_server::request::read_command;
use socks5_server::request::reply;
use socks5_server::request::ConnectOutcome;
use socks5_server::wire::Progress;
use socks5_server::ReplyError;
use socks5_server::SocksError;
use socks5_server::TargetAddr;

#[test]
fn request_is_read_field_by_field() {
    assert_eq!(read_command(&[]), Progress::Need(4));
    assert_eq!(read_command(&[5, 1]), Progress::Need(2));
    assert_eq!(read_command(&[5, 1, 0, 1]), Progress::Need(4));
    assert_eq!(read_command(&[5, 1, 0, 1, 127, 0, 0, 1]), Progress::Need(2));
    assert_eq!(read_command(&[5, 1, 0, 3]), Progress::Need(1));
    assert_eq!(read_command(&[5, 1, 0, 3, 9]), Progress::Need(9));
    assert_eq!(read_command(&[5, 1, 0, 4]), Progress::Need(16));
}

#[test]
fn connect_request_to_ipv4() {
    let got = read_command(&[0x05, 0x01, 0x00, 0x01, 0x7F, 0x00, 0x00, 0x01, 0x1F, 0x90]);
    let target = TargetAddr::Ip(SocketAddress { ip: IpAddress::V4([127, 0, 0, 1]), port: 8080 });
    assert_eq!(got, Progress::Complete(target));
}

#[test]
fn reserved_byte_is_not_examined() {
    let got = read_command(&[0x05, 0x01, 0x7A, 0x01, 1, 2, 3, 4, 0, 1]);
    let target = TargetAddr::Ip(SocketAddress { ip: IpAddress::V4([1, 2, 3, 4]), port: 1 });
    assert_eq!(got, Progress::Complete(target));
}

#[test]
fn request_of_another_version_has_no_reply_code() {
    assert_eq!(
        read_command(&[4, 1, 0, 1]),
        Progress::Fail(SocksError::UnsupportedSocksVersion(4))
    );
    assert_eq!(
        read_command(&[4, 2, 0, 9]),
        Progress::Fail(SocksError::UnsupportedSocksVersion(4))
    );
}

#[test]
fn commands_other_than_connect_are_not_supported() {
    for cmd in [0x00u8, 0x02, 0x03, 0xFF] {
        assert_eq!(
            read_command(&[5, cmd, 0, 1]),
            Progress::Fail(SocksError::ReplyError(ReplyError::CommandNotSupported))
        );
    }
}

#[test]
fn unreadable_address_is_address_type_not_supported() {
    let fail = Progress::Fail(SocksError::ReplyError(ReplyError::AddressTypeNotSupported));
    assert_eq!(read_command(&[5, 1, 0, 2]), fail);
    assert_eq!(read_command(&[5, 1, 0, 3, 0]), fail);
    assert_eq!(read_command(&[5, 1, 0, 3, 1, 0xFF]), fail);
    assert_eq!(read_command(&[5, 1, 0, 3, 2, b'a', 0]), fail);
}

#[test]
fn reply_carries_the_placeholder_address() {
    assert_eq!(reply(0x00), vec![0x05, 0x00, 0x00, 0x01, 0x7F, 0x00, 0x00, 0x01, 0x00, 0x00]);
    assert_eq!(reply(0x07), vec![0x05, 0x07, 0x00, 0x01, 0x7F, 0x00, 0x00, 0x01, 0x00, 0x00]);
    for code in 0..=255u8 {
        let bytes = reply(code);
        assert_eq!(bytes.len(), 10);
        assert_eq!((bytes[0], bytes[1], bytes[2]), (0x05, code, 0x00));
    }
}

#[test]
fn reply_codes() {
    let table = [
        (ReplyError::GeneralFailure, 0x01u8),
        (ReplyError::ConnectionNotAllowed, 0x02),
        (ReplyError::NetworkUnreachable, 0x03),
        (ReplyError::HostUnreachable, 0x04),
        (ReplyError::ConnectionRefused, 0x05),
        (ReplyError::TtlExpired, 0x06),
        (ReplyError::CommandNotSupported, 0x07),
        (ReplyError::AddressTypeNotSupported, 0x08),
    ];
    for (kind, code) in table {
        assert_eq!(kind.as_u8(), code);
    }
}

#[test]
fn connection_outcomes() {
    assert_eq!(classify_connect(ConnectOutcome::Connected), Ok(()));
    assert_eq!(classify_connect(ConnectOutcome::TimedOut), Err(ReplyError::TtlExpired));
    let table = [
        (IoErrorKind::ConnectionRefused, ReplyError::ConnectionRefused),
        (IoErrorKind::ConnectionAborted, ReplyError::ConnectionNotAllowed),
        (IoErrorKind::ConnectionReset, ReplyError::ConnectionNotAllowed),
        (IoErrorKind::NotConnected, ReplyError::NetworkUnreachable),
        (IoErrorKind::UnexpectedEof, ReplyError::GeneralFailure),
        (IoErrorKind::InvalidInput, ReplyError::GeneralFailure),
        (IoErrorKind::Other, ReplyError::GeneralFailure),
    ];
    for (kind, reply) in table {
        assert_eq!(classify_connect(ConnectOutcome::Failed(kind)), Err(reply));
    }
}

#[test]
fn errors_are_copied_whole() {
    let errors = vec![
        SocksError::UnsupportedSocksVersion(4),
        SocksError::AuthMethodUnacceptable(vec![0, 1, 2]),
        SocksError::AuthenticationRejected("user".to_string()),
        SocksError::Io(IoErrorKind::ConnectionReset),
        SocksError::ReplyError(ReplyError::TtlExpired),
    ];
    for error in errors {
        assert_eq!(error.duplicate(), error);
    }
}
