//! The address codec: the `(ATYP, ADDR, PORT)` triple of a request or a
//! reply, as a value and as bytes.

use vstd::prelude::*;
use vstd::slice::slice_subrange;
use vstd::slice::slice_to_vec;
use vstd::utf8::decode_utf8;
use vstd::utf8::encode_utf8;
use vstd::utf8::valid_utf8;
use crate::consts;

verus! {

/// An IP address, as its octets in network order.
#[derive(Clone, Copy, Debug, PartialEq, Eq, Hash)]
pub enum IpAddress {
    V4([u8; 4]),
    V6([u8; 16]),
}

/// An IP address and a port.
#[derive(Clone, Copy, Debug, PartialEq, Eq, Hash)]
pub struct SocketAddress {
    pub ip: IpAddress,
    pub port: u16,
}

/// The target of a request.
#[derive(Clone, Debug, PartialEq, Eq, Hash)]
pub enum TargetAddr {
    /// An IP address and a port.
    Ip(SocketAddress),
    /// A domain name and a port.
    Domain(String, u16),
}

/// Mathematical model of a [`TargetAddr`].
pub enum TargetAddrView {
    V4(Seq<u8>, u16),
    V6(Seq<u8>, u16),
    Domain(Seq<char>, u16),
}

impl View for TargetAddr {
    type V = TargetAddrView;

    open spec fn view(&self) -> TargetAddrView {
        match self {
            TargetAddr::Ip(SocketAddress { ip: IpAddress::V4(octets), port }) => TargetAddrView::V4(
                octets@,
                *port,
            ),
            TargetAddr::Ip(SocketAddress { ip: IpAddress::V6(octets), port }) => TargetAddrView::V6(
                octets@,
                *port,
            ),
            TargetAddr::Domain(name, port) => TargetAddrView::Domain(name@, *port),
        }
    }
}

/// Why bytes are not an address.
#[derive(Clone, Copy, Debug, PartialEq, Eq, Structural)]
pub enum AddrError {
    /// The address type byte is none of IPv4, domain name and IPv6.
    AddressTypeNotSupported,
    /// The domain name has length zero.
    EmptyDomain,
    /// The domain name is longer than 255 bytes.
    DomainTooLong,
    /// The domain name is not valid UTF-8.
    DomainEncoding,
    /// The domain name ends in a NUL byte.
    DomainTrailingNul,
}

/// The two bytes of a port, most significant first.
pub open spec fn port_bytes(port: u16) -> Seq<u8> {
    seq![(port / 256) as u8, (port % 256) as u8]
}

/// The port that two bytes stand for, most significant first.
pub open spec fn port_value(hi: u8, lo: u8) -> u16 {
    (hi * 256 + lo) as u16
}

/// Whether bytes can stand as a domain name on the wire.
pub open spec fn domain_fault(name: Seq<u8>) -> Option<AddrError> {
    if name.len() == 0 {
        Some(AddrError::EmptyDomain)
    } else if name.len() > 255 {
        Some(AddrError::DomainTooLong)
    } else if !valid_utf8(name) {
        Some(AddrError::DomainEncoding)
    } else if name.last() == 0 {
        Some(AddrError::DomainTrailingNul)
    } else {
        None
    }
}

impl TargetAddrView {
    /// Whether this address can be written to the wire.
    pub open spec fn wf(self) -> bool {
        match self {
            TargetAddrView::V4(octets, _) => octets.len() == 4,
            TargetAddrView::V6(octets, _) => octets.len() == 16,
            TargetAddrView::Domain(name, _) => domain_fault(encode_utf8(name)) is None,
        }
    }

    /// The address type byte of this address.
    pub open spec fn atyp(self) -> u8 {
        match self {
            TargetAddrView::V4(_, _) => 0x01,
            TargetAddrView::V6(_, _) => 0x04,
            TargetAddrView::Domain(_, _) => 0x03,
        }
    }

    /// What follows the address type byte on the wire.
    pub open spec fn payload(self) -> Seq<u8> {
        match self {
            TargetAddrView::V4(octets, port) => octets + port_bytes(port),
            TargetAddrView::V6(octets, port) => octets + port_bytes(port),
            TargetAddrView::Domain(name, port) => seq![encode_utf8(name).len() as u8] + encode_utf8(
                name,
            ) + port_bytes(port),
        }
    }

    /// This address on the wire: type, address and port.
    pub open spec fn wire(self) -> Seq<u8> {
        seq![self.atyp()] + self.payload()
    }
}

/// How far the bytes after an address type byte are from an address.
pub enum AddrStatus {
    /// The next field needs this many bytes more.
    Need(nat),
    /// The bytes begin with an address of this many bytes.
    Complete(nat),
    /// No address begins with these bytes.
    Fail(AddrError),
}

/// The status of a payload made of an address of `width` octets and a port.
pub open spec fn fixed_status(width: nat, len: nat) -> AddrStatus {
    if len < width {
        AddrStatus::Need((width - len) as nat)
    } else if len < width + 2 {
        AddrStatus::Need((width + 2 - len) as nat)
    } else {
        AddrStatus::Complete(width + 2)
    }
}

/// The status of a payload that holds a length, a domain name and a port.
pub open spec fn domain_status(payload: Seq<u8>) -> AddrStatus {
    if payload.len() == 0 {
        AddrStatus::Need(1)
    } else {
        let n = payload[0] as nat;
        if n == 0 {
            AddrStatus::Fail(AddrError::EmptyDomain)
        } else if payload.len() < 1 + n {
            AddrStatus::Need((1 + n - payload.len()) as nat)
        } else {
            match domain_fault(payload.subrange(1, 1 + n as int)) {
                Some(fault) => AddrStatus::Fail(fault),
                None => if payload.len() < 1 + n + 2 {
                    AddrStatus::Need((1 + n + 2 - payload.len()) as nat)
                } else {
                    AddrStatus::Complete(1 + n + 2)
                },
            }
        }
    }
}

/// The status of the bytes read so far after the address type byte `atyp`.
///
/// Fields are read one at a time: the octets of an IP address, the length
/// of a domain name, the name, the port. A fault is reported as soon as the
/// field that shows it is complete.
pub open spec fn address_status(atyp: u8, payload: Seq<u8>) -> AddrStatus {
    if atyp == 0x01 {
        fixed_status(4, payload.len())
    } else if atyp == 0x04 {
        fixed_status(16, payload.len())
    } else if atyp == 0x03 {
        domain_status(payload)
    } else {
        AddrStatus::Fail(AddrError::AddressTypeNotSupported)
    }
}

/// The address that a complete payload holds.
pub open spec fn address_value(atyp: u8, payload: Seq<u8>) -> TargetAddrView {
    if atyp == 0x01 {
        TargetAddrView::V4(payload.subrange(0, 4), port_value(payload[4], payload[5]))
    } else if atyp == 0x04 {
        TargetAddrView::V6(payload.subrange(0, 16), port_value(payload[16], payload[17]))
    } else {
        let n = payload[0] as int;
        TargetAddrView::Domain(
            decode_utf8(payload.subrange(1, 1 + n)),
            port_value(payload[1 + n], payload[2 + n]),
        )
    }
}

/// What became of the bytes after an address type byte.
#[derive(Clone, Debug, PartialEq, Eq)]
pub enum AddrProgress {
    /// The next field needs this many bytes more.
    Need(usize),
    /// The bytes hold this address.
    Complete(TargetAddr),
    /// No address begins with these bytes.
    Fail(AddrError),
}

/// `String::from_utf8` of std: the bytes become a string if and only if
/// they are valid UTF-8, and the string is then made of exactly these bytes.
#[verifier::external_body]
pub(crate) fn string_from_utf8(bytes: Vec<u8>) -> (text: Option<String>)
    ensures
        text is Some <==> valid_utf8(bytes@),
        text matches Some(s) ==> encode_utf8(s@) == bytes@,
{
    match String::from_utf8(bytes) {
        Ok(s) => Some(s),
        Err(_) => None,
    }
}

/// Decodes bytes as UTF-8 text.
pub fn decode_text(bytes: &[u8]) -> (text: Option<String>)
    ensures
        text is Some <==> valid_utf8(bytes@),
        text matches Some(s) ==> s@ == decode_utf8(bytes@),
{
    let text = string_from_utf8(slice_to_vec(bytes));
    proof {
        if text is Some {
            vstd::utf8::encode_utf8_decode_utf8(text->0@);
        }
    }
    text
}

/// Reads a port from two bytes, most significant first.
pub fn read_port(hi: u8, lo: u8) -> (port: u16)
    ensures
        port == port_value(hi, lo),
{
    (hi as u16) * 256 + (lo as u16)
}

/// Appends the two bytes of `port` to `out`, most significant first.
pub fn write_port(out: &mut Vec<u8>, port: u16)
    ensures
        final(out)@ == old(out)@ + port_bytes(port),
{
    out.push((port / 256) as u8);
    out.push((port % 256) as u8);
    assert(out@ =~= old(out)@ + port_bytes(port));
}

/// The port that was written is the port that is read back.
pub proof fn lemma_port_round_trip(port: u16)
    ensures
        port_bytes(port).len() == 2,
        port_value(port_bytes(port)[0], port_bytes(port)[1]) == port,
{
}

fn domain_text(name: &[u8]) -> (text: Result<String, AddrError>)
    ensures
        match text {
            Ok(s) => domain_fault(name@) is None && s@ == decode_utf8(name@),
            Err(fault) => domain_fault(name@) == Some(fault),
        },
{
    if name.len() == 0 {
        return Err(AddrError::EmptyDomain);
    }
    if name.len() > 255 {
        return Err(AddrError::DomainTooLong);
    }
    match decode_text(name) {
        None => Err(AddrError::DomainEncoding),
        Some(s) => if name[name.len() - 1] == 0 {
            Err(AddrError::DomainTrailingNul)
        } else {
            Ok(s)
        },
    }
}

fn read_v4(payload: &[u8]) -> (addr: TargetAddr)
    requires
        payload@.len() >= 6,
    ensures
        addr@ == address_value(0x01, payload@),
{
    let octets: [u8; 4] = [payload[0], payload[1], payload[2], payload[3]];
    let port = read_port(payload[4], payload[5]);
    assert(octets@ =~= payload@.subrange(0, 4));
    TargetAddr::Ip(SocketAddress { ip: IpAddress::V4(octets), port })
}

fn read_v6(payload: &[u8]) -> (addr: TargetAddr)
    requires
        payload@.len() >= 18,
    ensures
        addr@ == address_value(0x04, payload@),
{
    let octets: [u8; 16] = [
        payload[0],
        payload[1],
        payload[2],
        payload[3],
        payload[4],
        payload[5],
        payload[6],
        payload[7],
        payload[8],
        payload[9],
        payload[10],
        payload[11],
        payload[12],
        payload[13],
        payload[14],
        payload[15],
    ];
    let port = read_port(payload[16], payload[17]);
    assert(octets@ =~= payload@.subrange(0, 16));
    TargetAddr::Ip(SocketAddress { ip: IpAddress::V6(octets), port })
}

fn read_fixed(atyp: u8, width: usize, payload: &[u8]) -> (progress: AddrProgress)
    requires
        (atyp == 0x01 && width == 4) || (atyp == 0x04 && width == 16),
    ensures
        progress_matches(progress, atyp, payload@),
{
    let len = payload.len();
    if len < width {
        AddrProgress::Need(width - len)
    } else if len < width + 2 {
        AddrProgress::Need(width + 2 - len)
    } else if atyp == consts::SOCKS5_ADDR_TYPE_IPV4 {
        AddrProgress::Complete(read_v4(payload))
    } else {
        AddrProgress::Complete(read_v6(payload))
    }
}

fn read_domain(payload: &[u8]) -> (progress: AddrProgress)
    ensures
        progress_matches(progress, 0x03, payload@),
{
    let len = payload.len();
    if len == 0 {
        return AddrProgress::Need(1);
    }
    let n: usize = payload[0] as usize;
    if n == 0 {
        return AddrProgress::Fail(AddrError::EmptyDomain);
    }
    if len < 1 + n {
        return AddrProgress::Need(1 + n - len);
    }
    match domain_text(slice_subrange(payload, 1, 1 + n)) {
        Err(fault) => AddrProgress::Fail(fault),
        Ok(text) => if len < 1 + n + 2 {
            AddrProgress::Need(1 + n + 2 - len)
        } else {
            let port = read_port(payload[1 + n], payload[2 + n]);
            AddrProgress::Complete(TargetAddr::Domain(text, port))
        },
    }
}

/// Whether `progress` is what [`read_address`] owes for these bytes.
pub open spec fn progress_matches(progress: AddrProgress, atyp: u8, payload: Seq<u8>) -> bool {
    match progress {
        AddrProgress::Need(n) => address_status(atyp, payload) == AddrStatus::Need(n as nat),
        AddrProgress::Complete(addr) => address_status(atyp, payload) is Complete && addr@
            == address_value(atyp, payload),
        AddrProgress::Fail(e) => address_status(atyp, payload) == AddrStatus::Fail(e),
    }
}

/// Reads an address from the bytes that followed the address type byte
/// `atyp`, as far as they go.
///
/// The answer is the number of bytes that the next field still needs, the
/// address once its last field is complete, or the fault that the fields
/// read so far show.
pub fn read_address(atyp: u8, payload: &[u8]) -> (progress: AddrProgress)
    ensures
        progress_matches(progress, atyp, payload@),
{
    if atyp == consts::SOCKS5_ADDR_TYPE_IPV4 {
        read_fixed(atyp, 4, payload)
    } else if atyp == consts::SOCKS5_ADDR_TYPE_IPV6 {
        read_fixed(atyp, 16, payload)
    } else if atyp == consts::SOCKS5_ADDR_TYPE_DOMAIN_NAME {
        read_domain(payload)
    } else {
        AddrProgress::Fail(AddrError::AddressTypeNotSupported)
    }
}

impl TargetAddr {
    /// Returns a copy of this address.
    pub fn duplicate(&self) -> (copy: TargetAddr)
        ensures
            copy@ == self@,
    {
        match self {
            TargetAddr::Ip(ip) => TargetAddr::Ip(*ip),
            TargetAddr::Domain(name, port) => TargetAddr::Domain(name.clone(), *port),
        }
    }

    /// Writes this address as it stands on the wire: type, address, port.
    ///
    /// A domain name that could not be read back (empty, longer than 255
    /// bytes, or ending in a NUL byte) is refused.
    pub fn to_be_bytes(&self) -> (wire: Result<Vec<u8>, AddrError>)
        ensures
            match wire {
                Ok(bytes) => self@.wf() && bytes@ == self@.wire(),
                Err(fault) => self@ matches TargetAddrView::Domain(name, _) && domain_fault(
                    encode_utf8(name),
                ) == Some(fault),
            },
    {
        let mut out: Vec<u8> = Vec::new();
        match self {
            TargetAddr::Ip(SocketAddress { ip: IpAddress::V4(octets), port }) => {
                out.push(consts::SOCKS5_ADDR_TYPE_IPV4);
                out.extend_from_slice(octets.as_slice());
                write_port(&mut out, *port);
            },
            TargetAddr::Ip(SocketAddress { ip: IpAddress::V6(octets), port }) => {
                out.push(consts::SOCKS5_ADDR_TYPE_IPV6);
                out.extend_from_slice(octets.as_slice());
                write_port(&mut out, *port);
            },
            TargetAddr::Domain(name, port) => {
                let bytes = name.as_str().as_bytes();
                proof {
                    vstd::utf8::encode_utf8_valid_utf8(name@);
                }
                match domain_text(bytes) {
                    Err(fault) => {
                        return Err(fault);
                    },
                    Ok(_) => {},
                }
                out.push(consts::SOCKS5_ADDR_TYPE_DOMAIN_NAME);
                out.push(bytes.len() as u8);
                out.extend_from_slice(bytes);
                write_port(&mut out, *port);
            },
        }
        assert(out@ =~= self@.wire());
        Ok(out)
    }
}

/// An address that was written to the wire is read back as the same
/// address, and the reading ends with its last byte.
pub proof fn lemma_address_round_trip(addr: TargetAddrView)
    requires
        addr.wf(),
    ensures
        address_status(addr.atyp(), addr.payload()) == AddrStatus::Complete(addr.payload().len()),
        address_value(addr.atyp(), addr.payload()) == addr,
{
    let payload = addr.payload();
    match addr {
        TargetAddrView::V4(octets, port) => {
            lemma_port_round_trip(port);
            assert(payload.subrange(0, 4) =~= octets);
        },
        TargetAddrView::V6(octets, port) => {
            lemma_port_round_trip(port);
            assert(payload.subrange(0, 16) =~= octets);
        },
        TargetAddrView::Domain(name, port) => {
            let bytes = encode_utf8(name);
            lemma_port_round_trip(port);
            vstd::utf8::encode_utf8_decode_utf8(name);
            assert(payload.subrange(1, 1 + bytes.len() as int) =~= bytes);
        },
    }
}

/// While an address is still arriving, reading asks for more and neither
/// fails nor ends early.
pub proof fn lemma_address_prefix_needs_more(addr: TargetAddrView, len: int)
    requires
        addr.wf(),
        0 <= len < addr.payload().len(),
    ensures
        address_status(addr.atyp(), addr.payload().subrange(0, len)) is Need,
{
    let payload = addr.payload();
    let prefix = payload.subrange(0, len);
    match addr {
        TargetAddrView::V4(octets, port) => {},
        TargetAddrView::V6(octets, port) => {},
        TargetAddrView::Domain(name, port) => {
            let bytes = encode_utf8(name);
            if len >= 1 + bytes.len() {
                assert(prefix.subrange(1, 1 + bytes.len() as int) =~= bytes);
            }
        },
    }
}

} // verus!
