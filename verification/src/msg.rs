//! The message model: a request or reply as an assembled byte buffer, with
//! validated accessors for the port, the address and the command, and an
//! encoder that builds such a buffer from its semantic fields.

use vstd::prelude::*;
use crate::v5::{
    VERSION,
    ATYP_IPV4,
    ATYP_IPV6,
    ATYP_DOMAIN,
    CMD_CONNECT,
    CMD_BIND,
    CMD_UDP_ASSOCIATE,
};

verus! {

/// The command a request carries, decoded from its second byte.
#[derive(Clone, Copy, Debug, PartialEq, Eq, Structural)]
pub enum Command {
    Connect,
    Bind,
    UdpAssociate,
    Unknown(u8),
}

/// A destination or bound address, in one of the three wire encodings.
#[derive(Debug, PartialEq, Eq)]
pub enum Address {
    /// IPv4, the four octets in wire order.
    V4(u8, u8, u8, u8),
    /// IPv6, the eight 16-bit segments in wire order.
    V6(u16, u16, u16, u16, u16, u16, u16, u16),
    /// A domain name, its raw bytes without terminator.
    Domain(Vec<u8>),
}

/// The mathematical shape of an [`Address`]: a domain name is a sequence.
pub enum AddressView {
    V4(u8, u8, u8, u8),
    V6(u16, u16, u16, u16, u16, u16, u16, u16),
    Domain(Seq<u8>),
}

impl View for Address {
    type V = AddressView;

    open spec fn view(&self) -> AddressView {
        match self {
            Address::V4(a0, a1, a2, a3) => AddressView::V4(*a0, *a1, *a2, *a3),
            Address::V6(s0, s1, s2, s3, s4, s5, s6, s7) => AddressView::V6(
                *s0,
                *s1,
                *s2,
                *s3,
                *s4,
                *s5,
                *s6,
                *s7,
            ),
            Address::Domain(d) => AddressView::Domain(d@),
        }
    }
}

/// An address that fits on the wire: a domain name carries its length in one
/// byte, so it holds at most 255 bytes.
pub open spec fn addr_wf(a: AddressView) -> bool {
    a matches AddressView::Domain(d) ==> d.len() <= 255
}

/// An IP address together with a port, as decoded from a message.
#[derive(Debug, PartialEq, Eq)]
pub struct SocketAddress {
    /// The address; never `Address::Domain` when built by [`SocksRequestResponse::socketaddr`].
    pub addr: Address,
    /// The port, host order.
    pub port: u16,
}

/// The address-type byte is one of the three the protocol defines.
pub open spec fn valid_atyp(a: u8) -> bool {
    a == ATYP_IPV4 || a == ATYP_IPV6 || a == ATYP_DOMAIN
}

/// How many bytes follow the 6-byte fixed prefix, given the address-type byte
/// and the fifth byte of the message (the domain-name length, when it applies).
pub open spec fn spec_tail_len(atyp: u8, len_byte: u8) -> int {
    if atyp == ATYP_IPV4 {
        4
    } else if atyp == ATYP_IPV6 {
        16
    } else {
        len_byte + 1
    }
}

/// A structurally complete message: the address type is recognized and the
/// length matches what that type demands.
pub open spec fn is_complete(s: Seq<u8>) -> bool {
    &&& s.len() >= 6
    &&& valid_atyp(s[3])
    &&& s.len() == 6 + spec_tail_len(s[3], s[4])
}

/// The big-endian 16-bit value of two bytes.
pub open spec fn spec_u16_be(hi: u8, lo: u8) -> int {
    hi * 256 + lo
}

/// The port: the big-endian value of the final two bytes.
pub open spec fn spec_port(s: Seq<u8>) -> int {
    spec_u16_be(s[s.len() - 2], s[s.len() - 1])
}

/// The address a complete message carries, decoded per its address-type byte.
pub open spec fn spec_address(s: Seq<u8>) -> AddressView
    recommends
        is_complete(s),
{
    if s[3] == ATYP_IPV4 {
        AddressView::V4(s[4], s[5], s[6], s[7])
    } else if s[3] == ATYP_IPV6 {
        AddressView::V6(
            spec_u16_be(s[4], s[5]) as u16,
            spec_u16_be(s[6], s[7]) as u16,
            spec_u16_be(s[8], s[9]) as u16,
            spec_u16_be(s[10], s[11]) as u16,
            spec_u16_be(s[12], s[13]) as u16,
            spec_u16_be(s[14], s[15]) as u16,
            spec_u16_be(s[16], s[17]) as u16,
            spec_u16_be(s[18], s[19]) as u16,
        )
    } else {
        AddressView::Domain(s.subrange(5, 5 + s[4]))
    }
}

/// The command encoded by a command byte.
pub open spec fn spec_command(b: u8) -> Command {
    if b == CMD_CONNECT {
        Command::Connect
    } else if b == CMD_BIND {
        Command::Bind
    } else if b == CMD_UDP_ASSOCIATE {
        Command::UdpAssociate
    } else {
        Command::Unknown(b)
    }
}

/// The address-type byte an address encodes to.
pub open spec fn spec_atyp_of(a: AddressView) -> u8 {
    match a {
        AddressView::V4(..) => ATYP_IPV4,
        AddressView::V6(..) => ATYP_IPV6,
        AddressView::Domain(_) => ATYP_DOMAIN,
    }
}

/// The wire bytes of an address: the raw octets, the segments split big-endian,
/// or the length byte followed by the domain bytes.
pub open spec fn spec_addr_bytes(a: AddressView) -> Seq<u8> {
    match a {
        AddressView::V4(a0, a1, a2, a3) => seq![a0, a1, a2, a3],
        AddressView::V6(s0, s1, s2, s3, s4, s5, s6, s7) => seq![
            (s0 / 256) as u8,
            (s0 % 256) as u8,
            (s1 / 256) as u8,
            (s1 % 256) as u8,
            (s2 / 256) as u8,
            (s2 % 256) as u8,
            (s3 / 256) as u8,
            (s3 % 256) as u8,
            (s4 / 256) as u8,
            (s4 % 256) as u8,
            (s5 / 256) as u8,
            (s5 % 256) as u8,
            (s6 / 256) as u8,
            (s6 % 256) as u8,
            (s7 / 256) as u8,
            (s7 % 256) as u8,
        ],
        AddressView::Domain(d) => seq![d.len() as u8] + d,
    }
}

/// The full wire encoding of a request or reply: version, command or reply
/// byte, reserved zero, address type, address bytes, big-endian port.
pub open spec fn spec_encode(code: u8, a: AddressView, port: u16) -> Seq<u8> {
    seq![VERSION, code, 0u8, spec_atyp_of(a)] + spec_addr_bytes(a) + seq![
        (port / 256) as u8,
        (port % 256) as u8,
    ]
}

/// Law: for every address kind with a valid payload, encoding a message and
/// decoding it back recovers the identical address, port, and command or
/// reply byte.
pub proof fn lemma_encode_decode_roundtrip(code: u8, a: AddressView, port: u16)
    requires
        addr_wf(a),
    ensures
        is_complete(spec_encode(code, a, port)),
        spec_encode(code, a, port)[0] == VERSION,
        spec_encode(code, a, port)[1] == code,
        spec_encode(code, a, port)[2] == 0,
        spec_encode(code, a, port)[3] == spec_atyp_of(a),
        spec_address(spec_encode(code, a, port)) == a,
        spec_port(spec_encode(code, a, port)) == port,
{
    let s = spec_encode(code, a, port);
    vstd::arithmetic::div_mod::lemma_fundamental_div_mod(port as int, 256);
    match a {
        AddressView::V4(a0, a1, a2, a3) => {
            assert(s.len() == 10);
            assert(spec_address(s) == a);
        },
        AddressView::V6(s0, s1, s2, s3, s4, s5, s6, s7) => {
            assert(s.len() == 22);
            vstd::arithmetic::div_mod::lemma_fundamental_div_mod(s0 as int, 256);
            vstd::arithmetic::div_mod::lemma_fundamental_div_mod(s1 as int, 256);
            vstd::arithmetic::div_mod::lemma_fundamental_div_mod(s2 as int, 256);
            vstd::arithmetic::div_mod::lemma_fundamental_div_mod(s3 as int, 256);
            vstd::arithmetic::div_mod::lemma_fundamental_div_mod(s4 as int, 256);
            vstd::arithmetic::div_mod::lemma_fundamental_div_mod(s5 as int, 256);
            vstd::arithmetic::div_mod::lemma_fundamental_div_mod(s6 as int, 256);
            vstd::arithmetic::div_mod::lemma_fundamental_div_mod(s7 as int, 256);
            assert(spec_address(s) == a);
        },
        AddressView::Domain(d) => {
            assert(s.len() == 7 + d.len());
            assert(s[4] == d.len() as u8);
            assert(s.subrange(5, 5 + s[4]) =~= d);
            assert(spec_address(s) == a);
        },
    }
}

/// Law: decoding is a function of the assembled bytes alone. Two messages
/// holding the same bytes decode to the same port, address and command; with
/// each accessor's postcondition pinning its result to this decoding of the
/// borrowed, unchanged buffer, repeated calls on one completed message
/// return identical values.
pub proof fn lemma_decode_deterministic(m1: SocksRequestResponse, m2: SocksRequestResponse)
    requires
        m1@ == m2@,
    ensures
        spec_port(m1@) == spec_port(m2@),
        spec_address(m1@) == spec_address(m2@),
        spec_command(m1@[1]) == spec_command(m2@[1]),
{
}

/// A request or reply assembled from completed exact-length reads.
#[derive(Debug, PartialEq, Eq)]
pub struct SocksRequestResponse {
    /// The raw wire bytes.
    pub bytes: Vec<u8>,
}

impl View for SocksRequestResponse {
    type V = Seq<u8>;

    open spec fn view(&self) -> Seq<u8> {
        self.bytes@
    }
}

impl SocksRequestResponse {
    /// The port: the big-endian value of the final two bytes.
    pub fn port(&self) -> (r: u16)
        requires
            is_complete(self@),
        ensures
            r == spec_port(self@),
    {
        let n = self.bytes.len();
        (self.bytes[n - 2] as u16) * 256 + (self.bytes[n - 1] as u16)
    }

    /// The big-endian 16-bit value at a byte offset.
    fn u16_at(&self, i: usize) -> (r: u16)
        requires
            i + 1 < self@.len(),
        ensures
            r == spec_u16_be(self@[i as int], self@[i + 1]),
    {
        let n = self.bytes.len();
        proof {
            assert(i + 1 < n);
        }
        (self.bytes[i] as u16) * 256 + (self.bytes[i + 1] as u16)
    }

    /// The address, decoded per the address-type byte.
    pub fn address(&self) -> (r: Address)
        requires
            is_complete(self@),
        ensures
            r@ == spec_address(self@),
    {
        let atyp = self.bytes[3];
        if atyp == ATYP_IPV4 {
            Address::V4(self.bytes[4], self.bytes[5], self.bytes[6], self.bytes[7])
        } else if atyp == ATYP_IPV6 {
            Address::V6(
                self.u16_at(4),
                self.u16_at(6),
                self.u16_at(8),
                self.u16_at(10),
                self.u16_at(12),
                self.u16_at(14),
                self.u16_at(16),
                self.u16_at(18),
            )
        } else {
            let len = self.bytes[4] as usize;
            let mut d: Vec<u8> = Vec::new();
            let mut i: usize = 0;
            while i < len
                invariant
                    is_complete(self@),
                    self@[3] == ATYP_DOMAIN,
                    len == self@[4],
                    self@.len() == 7 + len,
                    i <= len,
                    d@ =~= self@.subrange(5, 5 + i),
                decreases len - i,
            {
                d.push(self.bytes[5 + i]);
                i = i + 1;
                proof {
                    assert(d@ =~= self@.subrange(5, 5 + i));
                }
            }
            proof {
                assert(d@ =~= self@.subrange(5, 5 + self@[4]));
            }
            Address::Domain(d)
        }
    }

    /// The IP address, when the address type is IPv4 or IPv6; `None` for a
    /// domain name.
    pub fn ipaddr(&self) -> (r: Option<Address>)
        requires
            is_complete(self@),
        ensures
            self@[3] == ATYP_DOMAIN ==> r is None,
            self@[3] != ATYP_DOMAIN ==> (r matches Some(a) && a@ == spec_address(self@)),
    {
        if self.bytes[3] == ATYP_DOMAIN {
            None
        } else {
            Some(self.address())
        }
    }

    /// The IP address and port together, when the address type is IPv4 or
    /// IPv6; `None` for a domain name.
    pub fn socketaddr(&self) -> (r: Option<SocketAddress>)
        requires
            is_complete(self@),
        ensures
            self@[3] == ATYP_DOMAIN ==> r is None,
            self@[3] != ATYP_DOMAIN ==> (r matches Some(sa) && sa.addr@ == spec_address(self@)
                && sa.port == spec_port(self@)),
    {
        match self.ipaddr() {
            Some(ip) => Some(SocketAddress { addr: ip, port: self.port() }),
            None => None,
        }
    }

    /// The domain-name bytes, when the address type is a domain name; `None`
    /// otherwise.
    pub fn hostname(&self) -> (r: Option<Vec<u8>>)
        requires
            is_complete(self@),
        ensures
            self@[3] == ATYP_DOMAIN ==> (r matches Some(d) && AddressView::Domain(d@)
                == spec_address(self@)),
            self@[3] != ATYP_DOMAIN ==> r is None,
    {
        if self.bytes[3] == ATYP_DOMAIN {
            match self.address() {
                Address::Domain(d) => Some(d),
                _ => None,
            }
        } else {
            None
        }
    }

    /// The command, decoded from the second byte.
    pub fn command(&self) -> (r: Command)
        requires
            is_complete(self@),
        ensures
            r == spec_command(self@[1]),
    {
        match self.bytes[1] {
            CMD_CONNECT => Command::Connect,
            CMD_BIND => Command::Bind,
            CMD_UDP_ASSOCIATE => Command::UdpAssociate,
            cmd => Command::Unknown(cmd),
        }
    }

    /// The reply code: the second byte, read on the originator side.
    pub fn reply_code(&self) -> (r: u8)
        requires
            is_complete(self@),
        ensures
            r == self@[1],
    {
        self.bytes[1]
    }

    /// An independent copy of the message.
    pub fn clone(&self) -> (r: SocksRequestResponse)
        ensures
            r@ == self@,
    {
        let b = clone_bytes(&self.bytes);
        SocksRequestResponse { bytes: b }
    }
}

/// A copy of a byte vector, equal to its source element for element.
pub fn clone_bytes(v: &Vec<u8>) -> (r: Vec<u8>)
    ensures
        r@ == v@,
{
    let mut r: Vec<u8> = Vec::new();
    let mut i: usize = 0;
    while i < v.len()
        invariant
            i <= v@.len(),
            r@ =~= v@.subrange(0, i as int),
        decreases v@.len() - i,
    {
        r.push(v[i]);
        i = i + 1;
        proof {
            assert(r@ =~= v@.subrange(0, i as int));
        }
    }
    proof {
        assert(r@ =~= v@);
    }
    r
}

/// Builds the wire bytes of a request or reply from its semantic fields.
pub fn encode_request(code: u8, addr: &Address, port: u16) -> (r: SocksRequestResponse)
    requires
        addr_wf(addr@),
    ensures
        r@ == spec_encode(code, addr@, port),
        is_complete(r@),
{
    let mut b: Vec<u8> = Vec::new();
    b.push(VERSION);
    b.push(code);
    b.push(0);
    match addr {
        Address::V4(a0, a1, a2, a3) => {
            b.push(ATYP_IPV4);
            b.push(*a0);
            b.push(*a1);
            b.push(*a2);
            b.push(*a3);
        },
        Address::V6(s0, s1, s2, s3, s4, s5, s6, s7) => {
            b.push(ATYP_IPV6);
            push_u16_be(&mut b, *s0);
            push_u16_be(&mut b, *s1);
            push_u16_be(&mut b, *s2);
            push_u16_be(&mut b, *s3);
            push_u16_be(&mut b, *s4);
            push_u16_be(&mut b, *s5);
            push_u16_be(&mut b, *s6);
            push_u16_be(&mut b, *s7);
        },
        Address::Domain(d) => {
            b.push(ATYP_DOMAIN);
            b.push(d.len() as u8);
            let mut i: usize = 0;
            while i < d.len()
                invariant
                    i <= d@.len(),
                    b@ =~= seq![VERSION, code, 0u8, ATYP_DOMAIN, d@.len() as u8] + d@.subrange(
                        0,
                        i as int,
                    ),
                decreases d@.len() - i,
            {
                b.push(d[i]);
                i = i + 1;
                proof {
                    assert(b@ =~= seq![VERSION, code, 0u8, ATYP_DOMAIN, d@.len() as u8]
                        + d@.subrange(0, i as int));
                }
            }
        },
    }
    b.push((port / 256) as u8);
    b.push((port % 256) as u8);
    proof {
        assert(b@ =~= spec_encode(code, addr@, port));
        lemma_encode_decode_roundtrip(code, addr@, port);
    }
    SocksRequestResponse { bytes: b }
}

/// Appends the big-endian bytes of a 16-bit value.
fn push_u16_be(b: &mut Vec<u8>, s: u16)
    ensures
        final(b)@ == old(b)@ + seq![(s / 256) as u8, (s % 256) as u8],
{
    b.push((s / 256) as u8);
    b.push((s % 256) as u8);
    proof {
        assert(b@ =~= old(b)@ + seq![(s / 256) as u8, (s % 256) as u8]);
    }
}

} // verus!
