//! The two error families of a connection: failures that are answered on
//! the wire with a reply code, and failures that end the connection
//! without an answer.

use vstd::prelude::*;
use crate::consts;

verus! {

/// A failure of the request phase that the client is told about.
#[derive(Clone, Copy, Debug, PartialEq, Eq, Structural)]
pub enum ReplyError {
    GeneralFailure,
    ConnectionNotAllowed,
    NetworkUnreachable,
    HostUnreachable,
    ConnectionRefused,
    TtlExpired,
    CommandNotSupported,
    AddressTypeNotSupported,
}

impl ReplyError {
    /// The reply code that stands for this failure on the wire.
    pub open spec fn code(self) -> u8 {
        match self {
            ReplyError::GeneralFailure => 0x01,
            ReplyError::ConnectionNotAllowed => 0x02,
            ReplyError::NetworkUnreachable => 0x03,
            ReplyError::HostUnreachable => 0x04,
            ReplyError::ConnectionRefused => 0x05,
            ReplyError::TtlExpired => 0x06,
            ReplyError::CommandNotSupported => 0x07,
            ReplyError::AddressTypeNotSupported => 0x08,
        }
    }

    /// Returns the reply code of this failure.
    pub fn as_u8(&self) -> (code: u8)
        ensures
            code == self.code(),
            1 <= code <= 8,
    {
        match self {
            ReplyError::GeneralFailure => consts::SOCKS5_REPLY_GENERAL_FAILURE,
            ReplyError::ConnectionNotAllowed => consts::SOCKS5_REPLY_CONNECTION_NOT_ALLOWED,
            ReplyError::NetworkUnreachable => consts::SOCKS5_REPLY_NETWORK_UNREACHABLE,
            ReplyError::HostUnreachable => consts::SOCKS5_REPLY_HOST_UNREACHABLE,
            ReplyError::ConnectionRefused => consts::SOCKS5_REPLY_CONNECTION_REFUSED,
            ReplyError::TtlExpired => consts::SOCKS5_REPLY_TTL_EXPIRED,
            ReplyError::CommandNotSupported => consts::SOCKS5_REPLY_COMMAND_NOT_SUPPORTED,
            ReplyError::AddressTypeNotSupported => consts::SOCKS5_REPLY_ADDRESS_TYPE_NOT_SUPPORTED,
        }
    }
}

/// What went wrong in a transport operation, as far as the protocol cares.
#[derive(Clone, Copy, Debug, PartialEq, Eq, Structural)]
pub enum IoErrorKind {
    ConnectionRefused,
    ConnectionAborted,
    ConnectionReset,
    NotConnected,
    /// The peer closed before the requested bytes had arrived.
    UnexpectedEof,
    /// The engine was handed an outcome it had not asked for.
    InvalidInput,
    Other,
}

/// Which part of the credentials was malformed.
#[derive(Clone, Copy, Debug, PartialEq, Eq, Structural)]
pub enum CredentialFault {
    /// The username length was zero.
    EmptyUsername,
    /// The password length was zero.
    EmptyPassword,
    /// The username was not valid UTF-8.
    UsernameEncoding,
    /// The password was not valid UTF-8.
    PasswordEncoding,
}

/// Why a connection ended.
#[derive(Clone, Debug, PartialEq, Eq)]
pub enum SocksError {
    /// The client spoke another protocol version.
    UnsupportedSocksVersion(u8),
    /// The client offered these methods, none of which the server requires.
    AuthMethodUnacceptable(Vec<u8>),
    /// The credentials were malformed.
    AuthenticationFailed(CredentialFault),
    /// The authenticator rejected this username.
    AuthenticationRejected(String),
    /// A read, a write or the outbound connection failed.
    Io(IoErrorKind),
    /// The request failed and the client was told so.
    ReplyError(ReplyError),
}

/// Mathematical model of a [`SocksError`].
pub enum SocksErrorView {
    UnsupportedSocksVersion(u8),
    AuthMethodUnacceptable(Seq<u8>),
    AuthenticationFailed(CredentialFault),
    AuthenticationRejected(Seq<char>),
    Io(IoErrorKind),
    ReplyError(ReplyError),
}

impl View for SocksError {
    type V = SocksErrorView;

    open spec fn view(&self) -> SocksErrorView {
        match self {
            SocksError::UnsupportedSocksVersion(v) => SocksErrorView::UnsupportedSocksVersion(*v),
            SocksError::AuthMethodUnacceptable(m) => SocksErrorView::AuthMethodUnacceptable(m@),
            SocksError::AuthenticationFailed(f) => SocksErrorView::AuthenticationFailed(*f),
            SocksError::AuthenticationRejected(u) => SocksErrorView::AuthenticationRejected(u@),
            SocksError::Io(k) => SocksErrorView::Io(*k),
            SocksError::ReplyError(e) => SocksErrorView::ReplyError(*e),
        }
    }
}

impl SocksError {
    /// Returns a copy of this error.
    pub fn duplicate(&self) -> (copy: SocksError)
        ensures
            copy@ == self@,
    {
        match self {
            SocksError::UnsupportedSocksVersion(v) => SocksError::UnsupportedSocksVersion(*v),
            SocksError::AuthMethodUnacceptable(m) => SocksError::AuthMethodUnacceptable(m.clone()),
            SocksError::AuthenticationFailed(f) => SocksError::AuthenticationFailed(*f),
            SocksError::AuthenticationRejected(u) => SocksError::AuthenticationRejected(u.clone()),
            SocksError::Io(k) => SocksError::Io(*k),
            SocksError::ReplyError(e) => SocksError::ReplyError(*e),
        }
    }
}

} // verus!
