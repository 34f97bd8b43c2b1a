//! Protocol constants of RFC 1928 and RFC 1929.

use vstd::prelude::*;

verus! {

/// Version byte of every SOCKS5 message.
pub const SOCKS5_VERSION: u8 = 0x05;

/// Version byte of the username/password sub-negotiation.
pub const SOCKS5_AUTH_VERSION: u8 = 0x01;

/// Method: no authentication required.
pub const SOCKS5_AUTH_METHOD_NONE: u8 = 0x00;

/// Method: GSSAPI (never selected by this server).
pub const SOCKS5_AUTH_METHOD_GSSAPI: u8 = 0x01;

/// Method: username and password.
pub const SOCKS5_AUTH_METHOD_PASSWORD: u8 = 0x02;

/// Method selection answer when no offered method is acceptable.
pub const SOCKS5_AUTH_METHOD_NOT_ACCEPTABLE: u8 = 0xff;

/// Command: open a TCP connection to the target.
pub const SOCKS5_CMD_TCP_CONNECT: u8 = 0x01;

/// Command: bind (not implemented).
pub const SOCKS5_CMD_TCP_BIND: u8 = 0x02;

/// Command: UDP associate (not implemented).
pub const SOCKS5_CMD_UDP_ASSOCIATE: u8 = 0x03;

/// Address type: four octets of IPv4.
pub const SOCKS5_ADDR_TYPE_IPV4: u8 = 0x01;

/// Address type: length-prefixed domain name.
pub const SOCKS5_ADDR_TYPE_DOMAIN_NAME: u8 = 0x03;

/// Address type: sixteen octets of IPv6.
pub const SOCKS5_ADDR_TYPE_IPV6: u8 = 0x04;

/// Reply code of a request that succeeded.
pub const SOCKS5_REPLY_SUCCEEDED: u8 = 0x00;

/// Reply code: general failure.
pub const SOCKS5_REPLY_GENERAL_FAILURE: u8 = 0x01;

/// Reply code: connection not allowed.
pub const SOCKS5_REPLY_CONNECTION_NOT_ALLOWED: u8 = 0x02;

/// Reply code: network unreachable.
pub const SOCKS5_REPLY_NETWORK_UNREACHABLE: u8 = 0x03;

/// Reply code: host unreachable.
pub const SOCKS5_REPLY_HOST_UNREACHABLE: u8 = 0x04;

/// Reply code: connection refused.
pub const SOCKS5_REPLY_CONNECTION_REFUSED: u8 = 0x05;

/// Reply code: time to live expired.
pub const SOCKS5_REPLY_TTL_EXPIRED: u8 = 0x06;

/// Reply code: command not supported.
pub const SOCKS5_REPLY_COMMAND_NOT_SUPPORTED: u8 = 0x07;

/// Reply code: address type not supported.
pub const SOCKS5_REPLY_ADDRESS_TYPE_NOT_SUPPORTED: u8 = 0x08;

} // verus!
