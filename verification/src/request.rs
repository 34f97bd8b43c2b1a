//! The request phase: the CONNECT request, the outcome of the outbound
//! connection, and the reply.

use vstd::prelude::*;
use vstd::slice::slice_subrange;
use crate::address::address_status;
use crate::address::address_value;
use crate::address::port_bytes;
use crate::address::read_address;
use crate::address::AddrProgress;
use crate::address::AddrStatus;
use crate::address::IpAddress;
use crate::address::SocketAddress;
use crate::address::TargetAddr;
use crate::address::TargetAddrView;
use crate::consts;
use crate::error::IoErrorKind;
use crate::error::ReplyError;
use crate::error::SocksError;
use crate::error::SocksErrorView;
use crate::wire::Progress;
use crate::wire::Status;

verus! {

/// The status of the bytes read so far of a request,
/// `[VER, CMD, RSV, ATYP, ADDR..., PORT]`.
///
/// A version other than 5 ends the connection without a reply. Any
/// command but CONNECT is answered with `CommandNotSupported`, before the
/// address is read. An address that cannot be read is answered with
/// `AddressTypeNotSupported`. The reserved byte is not examined.
pub open spec fn request_status(buf: Seq<u8>) -> Status<TargetAddrView> {
    if buf.len() < 4 {
        Status::Need((4 - buf.len()) as nat)
    } else if buf[0] != 0x05 {
        Status::Fail(SocksErrorView::UnsupportedSocksVersion(buf[0]))
    } else if buf[1] != 0x01 {
        Status::Fail(SocksErrorView::ReplyError(ReplyError::CommandNotSupported))
    } else {
        match address_status(buf[3], buf.skip(4)) {
            AddrStatus::Need(n) => Status::Need(n),
            AddrStatus::Complete(_) => Status::Complete(address_value(buf[3], buf.skip(4))),
            AddrStatus::Fail(_) => Status::Fail(
                SocksErrorView::ReplyError(ReplyError::AddressTypeNotSupported),
            ),
        }
    }
}

/// Reads a request as far as the bytes go.
pub fn read_command(buf: &[u8]) -> (progress: Progress<TargetAddr>)
    ensures
        progress@ == request_status(buf@),
{
    let len = buf.len();
    if len < 4 {
        return Progress::Need(4 - len);
    }
    let version = buf[0];
    if version != consts::SOCKS5_VERSION {
        return Progress::Fail(SocksError::UnsupportedSocksVersion(version));
    }
    if buf[1] != consts::SOCKS5_CMD_TCP_CONNECT {
        return Progress::Fail(SocksError::ReplyError(ReplyError::CommandNotSupported));
    }
    let payload = slice_subrange(buf, 4, len);
    assert(payload@ =~= buf@.skip(4));
    match read_address(buf[3], payload) {
        AddrProgress::Need(n) => Progress::Need(n),
        AddrProgress::Complete(addr) => Progress::Complete(addr),
        AddrProgress::Fail(_) => Progress::Fail(
            SocksError::ReplyError(ReplyError::AddressTypeNotSupported),
        ),
    }
}

/// How the attempt to connect to the target ended.
#[derive(Clone, Copy, Debug, PartialEq, Eq, Structural)]
pub enum ConnectOutcome {
    /// The connection stands.
    Connected,
    /// The deadline passed first.
    TimedOut,
    /// The attempt failed.
    Failed(IoErrorKind),
}

/// The failure that the outcome of a connection attempt is reported as;
/// `None` where the connection stands.
pub open spec fn connect_failure(outcome: ConnectOutcome) -> Option<ReplyError> {
    match outcome {
        ConnectOutcome::Connected => None,
        ConnectOutcome::TimedOut => Some(ReplyError::TtlExpired),
        ConnectOutcome::Failed(IoErrorKind::ConnectionRefused) => Some(
            ReplyError::ConnectionRefused,
        ),
        ConnectOutcome::Failed(IoErrorKind::ConnectionAborted) => Some(
            ReplyError::ConnectionNotAllowed,
        ),
        ConnectOutcome::Failed(IoErrorKind::ConnectionReset) => Some(
            ReplyError::ConnectionNotAllowed,
        ),
        ConnectOutcome::Failed(IoErrorKind::NotConnected) => Some(ReplyError::NetworkUnreachable),
        ConnectOutcome::Failed(_) => Some(ReplyError::GeneralFailure),
    }
}

/// Maps the outcome of a connection attempt to the failure it is reported
/// as.
pub fn classify_connect(outcome: ConnectOutcome) -> (result: Result<(), ReplyError>)
    ensures
        match result {
            Ok(_) => connect_failure(outcome) is None,
            Err(e) => connect_failure(outcome) == Some(e),
        },
{
    match outcome {
        ConnectOutcome::Connected => Ok(()),
        ConnectOutcome::TimedOut => Err(ReplyError::TtlExpired),
        ConnectOutcome::Failed(kind) => match kind {
            IoErrorKind::ConnectionRefused => Err(ReplyError::ConnectionRefused),
            IoErrorKind::ConnectionAborted => Err(ReplyError::ConnectionNotAllowed),
            IoErrorKind::ConnectionReset => Err(ReplyError::ConnectionNotAllowed),
            IoErrorKind::NotConnected => Err(ReplyError::NetworkUnreachable),
            _ => Err(ReplyError::GeneralFailure),
        },
    }
}

/// The address that a reply carries where the server has none to report:
/// `127.0.0.1:0`.
pub open spec fn placeholder() -> TargetAddrView {
    TargetAddrView::V4(seq![127u8, 0u8, 0u8, 1u8], 0)
}

/// The reply with the code `code`: `[VER, REP, RSV]` and the placeholder
/// address in the encoding of the address codec.
pub open spec fn reply_wire(code: u8) -> Seq<u8> {
    seq![0x05u8, code, 0x00u8] + placeholder().wire()
}

/// Writes the reply with the code `code`.
pub fn reply(code: u8) -> (bytes: Vec<u8>)
    ensures
        bytes@ == reply_wire(code),
        bytes@ == seq![0x05u8, code, 0x00u8, 0x01u8, 127u8, 0u8, 0u8, 1u8, 0u8, 0u8],
{
    let bound = TargetAddr::Ip(
        SocketAddress { ip: IpAddress::V4([127, 0, 0, 1]), port: 0 },
    );
    let mut bytes: Vec<u8> = Vec::new();
    bytes.push(consts::SOCKS5_VERSION);
    bytes.push(code);
    bytes.push(0x00);
    match bound.to_be_bytes() {
        Ok(addr) => {
            bytes.extend_from_slice(addr.as_slice());
        },
        Err(_) => {},
    }
    proof {
        let octets = seq![127u8, 0u8, 0u8, 1u8];
        assert(bound@ == placeholder()) by {
            assert(bound->Ip_0.ip->V4_0@ =~= octets);
        }
        assert(port_bytes(0) =~= seq![0u8, 0u8]);
        assert(bytes@ =~= reply_wire(code));
        assert(reply_wire(code) =~= seq![
            0x05u8,
            code,
            0x00u8,
            0x01u8,
            127u8,
            0u8,
            0u8,
            1u8,
            0u8,
            0u8,
        ]);
    }
    bytes
}

} // verus!
