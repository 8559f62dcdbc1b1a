//! Wire-layout constants of the SOCKS version 5 negotiation, per RFC 1928.

use vstd::prelude::*;

verus! {

/// Protocol version byte.
pub const VERSION: u8 = 5;

/// Authentication method: no authentication required.
pub const METH_NO_AUTH: u8 = 0;
/// Authentication method: GSSAPI.
pub const METH_GSSAPI: u8 = 1;
/// Authentication method: username/password.
pub const METH_USER_PASS: u8 = 2;
/// Method-selection answer: none of the offered methods is acceptable.
pub const METH_NO_ACCEPTABLE_METHOD: u8 = 255;

/// Command: CONNECT.
pub const CMD_CONNECT: u8 = 1;
/// Command: BIND.
pub const CMD_BIND: u8 = 2;
/// Command: UDP ASSOCIATE.
pub const CMD_UDP_ASSOCIATE: u8 = 3;

/// Address type: IPv4, a 4-byte payload.
pub const ATYP_IPV4: u8 = 1;
/// Address type: domain name, a 1-byte length followed by that many bytes.
pub const ATYP_DOMAIN: u8 = 3;
/// Address type: IPv6, a 16-byte payload.
pub const ATYP_IPV6: u8 = 4;

/// Reply code: succeeded.
pub const REP_SUCCEEDED: u8 = 0;
/// Reply code: general SOCKS server failure.
pub const REP_GENERAL_FAILURE: u8 = 1;
/// Reply code: connection not allowed by ruleset.
pub const REP_NOT_ALLOWED: u8 = 2;
/// Reply code: network unreachable.
pub const REP_NETWORK_UNREACHABLE: u8 = 3;
/// Reply code: host unreachable.
pub const REP_HOST_UNREACHABLE: u8 = 4;
/// Reply code: connection refused.
pub const REP_CONNECTION_REFUSED: u8 = 5;
/// Reply code: TTL expired.
pub const REP_TTL_EXPIRED: u8 = 6;
/// Reply code: command not supported.
pub const REP_CMD_NOT_SUPPORTED: u8 = 7;
/// Reply code: address type not supported.
pub const REP_ATYP_NOT_SUPPORTED: u8 = 8;

/// A request or reply starts with a fixed prefix of 6 bytes: version,
/// command/reply, reserved, address type, and the first 2 payload bytes.
/// Only after these 6 bytes is the true remaining length known.
pub const FIXED_PREFIX_SIZE: usize = 6;

/// No request or reply is longer than this: the worst case is a domain-name
/// address of maximal length.
pub const MAX_MESSAGE_SIZE: usize = 263;

} // verus!
