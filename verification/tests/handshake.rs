use socks5_server::error::CredentialFault;
use socks5_server::handshake::auth_reply_bytes;
use socks5_server::handshake::can_accept_method;
use socks5_server::handshake::get_methods;
use socks5_server::handshake::read_credentials;
use socks5_server::handshake::select_method;
use socks5_server::wire::Progress;
use socks5_server::SocksError;

#[test]
fn method_request_is_read_field_by_field() {
    assert_eq!(get_methods(&[]), Progress::Need(2));
    assert_eq!(get_methods(&[5]), Progress::Need(1));
    assert_eq!(get_methods(&[5, 3]), Progress::Need(3));
    assert_eq!(get_methods(&[5, 3, 0]), Progress::Need(2));
    assert_eq!(get_methods(&[5, 3, 0, 1, 2]), Progress::Complete(vec![0, 1, 2]));
    assert_eq!(get_methods(&[5, 1, 2]), Progress::Complete(vec![2]));
    assert_eq!(get_methods(&[5, 255]), Progress::Need(255));
}

#[test]
fn method_request_without_methods_is_complete() {
    assert_eq!(get_methods(&[5, 0]), Progress::Complete(vec![]));
}

#[test]
fn method_request_of_another_version_fails() {
    assert_eq!(get_methods(&[4, 1]), Progress::Fail(SocksError::UnsupportedSocksVersion(4)));
    assert_eq!(get_methods(&[0, 0]), Progress::Fail(SocksError::UnsupportedSocksVersion(0)));
    assert_eq!(get_methods(&[4]), Progress::Need(1));
}

#[test]
fn server_requires_one_method() {
    assert!(can_accept_method(false, &[0]));
    assert!(can_accept_method(false, &[2, 1, 0]));
    assert!(!can_accept_method(false, &[1, 2]));
    assert!(!can_accept_method(false, &[]));
    assert!(can_accept_method(true, &[2]));
    assert!(can_accept_method(true, &[0, 1, 2]));
    assert!(!can_accept_method(true, &[0, 1]));
    assert!(!can_accept_method(true, &[]));
}

#[test]
fn method_selection_names_the_required_method_or_none() {
    assert_eq!(select_method(false, &[0]), vec![0x05, 0x00]);
    assert_eq!(select_method(false, &[0, 2]), vec![0x05, 0x00]);
    assert_eq!(select_method(true, &[0, 2]), vec![0x05, 0x02]);
    assert_eq!(select_method(true, &[0]), vec![0x05, 0xFF]);
    assert_eq!(select_method(false, &[2]), vec![0x05, 0xFF]);
    assert_eq!(select_method(false, &[]), vec![0x05, 0xFF]);
    assert_eq!(select_method(true, &[0xFF]), vec![0x05, 0xFF]);
}

#[test]
fn credentials_are_read_field_by_field() {
    assert_eq!(read_credentials(&[]), Progress::Need(2));
    assert_eq!(read_credentials(&[1]), Progress::Need(1));
    assert_eq!(read_credentials(&[1, 4]), Progress::Need(4));
    assert_eq!(read_credentials(&[1, 4, b'u', b's', b'e', b'r']), Progress::Need(1));
    assert_eq!(read_credentials(&[1, 4, b'u', b's', b'e', b'r', 4]), Progress::Need(4));
    assert_eq!(read_credentials(&[1, 4, b'u', b's', b'e', b'r', 4, b'p']), Progress::Need(3));
    let whole = [0x01, 0x04, 0x75, 0x73, 0x65, 0x72, 0x04, 0x70, 0x61, 0x73, 0x73];
    assert_eq!(
        read_credentials(&whole),
        Progress::Complete(("user".to_string(), "pass".to_string()))
    );
}

#[test]
fn credentials_version_byte_is_not_examined() {
    assert_eq!(
        read_credentials(&[5, 1, b'a', 1, b'b']),
        Progress::Complete(("a".to_string(), "b".to_string()))
    );
}

#[test]
fn empty_username_fails_at_its_length() {
    assert_eq!(
        read_credentials(&[1, 0]),
        Progress::Fail(SocksError::AuthenticationFailed(CredentialFault::EmptyUsername))
    );
}

#[test]
fn empty_password_fails_at_its_length() {
    assert_eq!(
        read_credentials(&[1, 1, b'a', 0]),
        Progress::Fail(SocksError::AuthenticationFailed(CredentialFault::EmptyPassword))
    );
}

#[test]
fn credentials_that_are_not_utf8_fail() {
    assert_eq!(
        read_credentials(&[1, 1, 0xFF, 1, b'b']),
        Progress::Fail(SocksError::AuthenticationFailed(CredentialFault::UsernameEncoding))
    );
    assert_eq!(
        read_credentials(&[1, 1, b'a', 2, 0xC3, 0x28]),
        Progress::Fail(SocksError::AuthenticationFailed(CredentialFault::PasswordEncoding))
    );
    assert_eq!(
        read_credentials(&[1, 1, 0xFF, 1, 0xFF]),
        Progress::Fail(SocksError::AuthenticationFailed(CredentialFault::UsernameEncoding))
    );
    assert_eq!(read_credentials(&[1, 1, 0xFF]), Progress::Need(1));
}

#[test]
fn answer_to_credentials() {
    assert_eq!(auth_reply_bytes(true), vec![0x01, 0x00]);
    assert_eq!(auth_reply_bytes(false), vec![0x01, 0xFF]);
}
