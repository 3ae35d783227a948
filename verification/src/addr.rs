//! The address codec: conversion between a transport address value and the
//! OS's binary socket-address representation, and flattening of address
//! lists for the multi-address bind and connect calls.
//!
//! The binary layout is the OS-defined one: a family tag at offset 0 in host
//! byte order, the port in network order, then the family's fixed-size body
//! (16 bytes in all for IPv4, 28 for IPv6). A list is packed back-to-back,
//! each element at its family's natural size.
use vstd::prelude::*;

use crate::error::SctpError;
use crate::wire::be128_at;
use crate::wire::be128_bytes;
use crate::wire::be16_at;
use crate::wire::be16_bytes;
use crate::wire::be32_at;
use crate::wire::be32_bytes;
use crate::wire::le16_at;
use crate::wire::le32_at;
use crate::wire::le32_bytes;
use crate::wire::lemma_be128_bytes_at;
use crate::wire::lemma_be16_bytes_at;
use crate::wire::lemma_be32_bytes_at;
use crate::wire::lemma_le32_bytes_at;
use crate::wire::push_u128_be;
use crate::wire::push_u16_be;
use crate::wire::push_u16_le;
use crate::wire::push_u32_be;
use crate::wire::push_u32_le;
use crate::wire::read_u128_be;
use crate::wire::read_u16_be;
use crate::wire::read_u16_le;
use crate::wire::read_u32_be;
use crate::wire::read_u32_le;

verus! {

/// The OS family tag of an IPv4 socket address.
pub const AF_INET: u16 = 2;

/// The OS family tag of an IPv6 socket address.
pub const AF_INET6: u16 = 10;

/// The size of the OS's IPv4 socket-address structure.
pub const SOCKADDR_IN_LEN: usize = 16;

/// The size of the OS's IPv6 socket-address structure.
pub const SOCKADDR_IN6_LEN: usize = 28;

/// The size of the OS's family-agnostic address storage.
pub const SOCKADDR_STORAGE_LEN: usize = 128;

/// An IPv4 or IPv6 endpoint: the host address as the big-endian reading of
/// its bytes, and the port. IPv6 adds the flow label and scope id that the
/// OS structure carries.
#[derive(Clone, Copy, Debug, PartialEq, Eq, Structural)]
#[allow(inconsistent_fields)]
pub enum TransportAddress {
    V4 { addr: u32, port: u16 },
    V6 { addr: u128, port: u16, flowinfo: u32, scope_id: u32 },
}

impl TransportAddress {
    /// The size of this address's OS structure.
    pub open spec fn spec_encoded_len(self) -> int {
        match self {
            TransportAddress::V4 { .. } => SOCKADDR_IN_LEN as int,
            TransportAddress::V6 { .. } => SOCKADDR_IN6_LEN as int,
        }
    }

    /// The size of this address's OS structure.
    pub fn encoded_len(&self) -> (r: usize)
        ensures
            r == self.spec_encoded_len(),
    {
        match self {
            TransportAddress::V4 { .. } => SOCKADDR_IN_LEN,
            TransportAddress::V6 { .. } => SOCKADDR_IN6_LEN,
        }
    }

    /// Whether this is an IPv6 endpoint.
    pub fn is_v6(&self) -> (r: bool)
        ensures
            r == (self is V6),
    {
        match self {
            TransportAddress::V4 { .. } => false,
            TransportAddress::V6 { .. } => true,
        }
    }
}

/// The OS encoding of one address: family tag, network-order port, then the
/// family's body, zero-padded to the structure's size for IPv4.
pub open spec fn spec_encode(a: TransportAddress) -> Seq<u8> {
    match a {
        TransportAddress::V4 { addr, port } => seq![(AF_INET % 0x100) as u8, (AF_INET
            / 0x100) as u8] + be16_bytes(port) + be32_bytes(addr) + seq![
            0u8,
            0u8,
            0u8,
            0u8,
            0u8,
            0u8,
            0u8,
            0u8,
        ],
        TransportAddress::V6 { addr, port, flowinfo, scope_id } => seq![(AF_INET6
            % 0x100) as u8, (AF_INET6 / 0x100) as u8] + be16_bytes(port) + le32_bytes(flowinfo)
            + be128_bytes(addr) + le32_bytes(scope_id),
    }
}

/// The address read from the OS structure at offset `off` of `b`, assuming
/// the IPv4 family tag.
pub open spec fn spec_decode_v4_at(b: Seq<u8>, off: int) -> TransportAddress {
    TransportAddress::V4 { addr: be32_at(b, off + 4), port: be16_at(b, off + 2) }
}

/// The address read from the OS structure at offset `off` of `b`, assuming
/// the IPv6 family tag.
pub open spec fn spec_decode_v6_at(b: Seq<u8>, off: int) -> TransportAddress {
    TransportAddress::V6 {
        addr: be128_at(b, off + 8),
        port: be16_at(b, off + 2),
        flowinfo: le32_at(b, off + 4),
        scope_id: le32_at(b, off + 24),
    }
}

/// The decoding of the OS address structure at the start of `b`, whose
/// declared length is `len`: dispatch on the family tag, then require the
/// declared length and the buffer to cover the family's structure.
pub open spec fn spec_decode(b: Seq<u8>, len: int) -> Result<TransportAddress, SctpError> {
    if len < 2 || b.len() < 2 {
        Err(SctpError::InvalidInput)
    } else if le16_at(b, 0) == AF_INET {
        if len >= SOCKADDR_IN_LEN && b.len() >= SOCKADDR_IN_LEN {
            Ok(spec_decode_v4_at(b, 0))
        } else {
            Err(SctpError::InvalidInput)
        }
    } else if le16_at(b, 0) == AF_INET6 {
        if len >= SOCKADDR_IN6_LEN && b.len() >= SOCKADDR_IN6_LEN {
            Ok(spec_decode_v6_at(b, 0))
        } else {
            Err(SctpError::InvalidInput)
        }
    } else {
        Err(SctpError::UnsupportedFamily(le16_at(b, 0)))
    }
}

/// Produces the OS encoding of `addr`.
pub fn encode(addr: &TransportAddress) -> (r: Vec<u8>)
    ensures
        r@ == spec_encode(*addr),
        r@.len() == addr.spec_encoded_len(),
{
    let mut out: Vec<u8> = Vec::new();
    let ghost whole = *addr;
    match addr {
        TransportAddress::V4 { addr, port } => {
            push_u16_le(&mut out, AF_INET);
            push_u16_be(&mut out, *port);
            push_u32_be(&mut out, *addr);
            let mut pad: usize = 0;
            while pad < 8
                invariant
                    pad <= 8,
                    out@ =~= seq![(AF_INET % 0x100) as u8, (AF_INET / 0x100) as u8] + be16_bytes(
                        *port,
                    ) + be32_bytes(*addr) + Seq::new(pad as nat, |i: int| 0u8),
                decreases 8 - pad,
            {
                out.push(0u8);
                pad = pad + 1;
            }
            proof {
                assert(Seq::new(8nat, |i: int| 0u8) =~= seq![0u8, 0u8, 0u8, 0u8, 0u8, 0u8, 0u8, 0u8]);
                assert(out@ =~= spec_encode(whole));
            }
        },
        TransportAddress::V6 { addr, port, flowinfo, scope_id } => {
            push_u16_le(&mut out, AF_INET6);
            push_u16_be(&mut out, *port);
            push_u32_le(&mut out, *flowinfo);
            push_u128_be(&mut out, *addr);
            push_u32_le(&mut out, *scope_id);
            proof {
                assert(out@ =~= spec_encode(whole));
            }
        },
    }
    out
}

/// Decodes the OS address structure at the start of `buf`, whose declared
/// length is `len`. An unknown family tag fails with `UnsupportedFamily`; a
/// declared length or buffer too short for the tagged family fails with
/// `InvalidInput`.
pub fn sockaddr_to_addr(buf: &[u8], len: usize) -> (r: Result<TransportAddress, SctpError>)
    ensures
        r == spec_decode(buf@, len as int),
{
    if len < 2 || buf.len() < 2 {
        return Err(SctpError::InvalidInput);
    }
    let family = read_u16_le(buf, 0);
    if family == AF_INET {
        if len >= SOCKADDR_IN_LEN && buf.len() >= SOCKADDR_IN_LEN {
            Ok(TransportAddress::V4 { addr: read_u32_be(buf, 4), port: read_u16_be(buf, 2) })
        } else {
            Err(SctpError::InvalidInput)
        }
    } else if family == AF_INET6 {
        if len >= SOCKADDR_IN6_LEN && buf.len() >= SOCKADDR_IN6_LEN {
            Ok(
                TransportAddress::V6 {
                    addr: read_u128_be(buf, 8),
                    port: read_u16_be(buf, 2),
                    flowinfo: read_u32_le(buf, 4),
                    scope_id: read_u32_le(buf, 24),
                },
            )
        } else {
            Err(SctpError::InvalidInput)
        }
    } else {
        Err(SctpError::UnsupportedFamily(family))
    }
}

/// Decoding an encoded address gives the address back, whichever family it
/// has: the codec loses nothing.
#[verifier::rlimit(60)]
pub proof fn lemma_address_round_trip(a: TransportAddress)
    ensures
        spec_decode(spec_encode(a), a.spec_encoded_len()) == Ok::<TransportAddress, SctpError>(a),
{
    let b = spec_encode(a);
    match a {
        TransportAddress::V4 { addr, port } => {
            assert(b.len() == 16);
            assert(le16_at(b, 0) == AF_INET);
            assert(forall|i: int| 0 <= i < 2 ==> b[2 + i] == be16_bytes(port)[i]);
            lemma_be16_bytes_at(port, b, 2);
            assert(forall|i: int| 0 <= i < 4 ==> b[4 + i] == be32_bytes(addr)[i]);
            lemma_be32_bytes_at(addr, b, 4);
        },
        TransportAddress::V6 { addr, port, flowinfo, scope_id } => {
            assert(b.len() == 28);
            assert(le16_at(b, 0) == AF_INET6);
            assert(forall|i: int| 0 <= i < 2 ==> b[2 + i] == be16_bytes(port)[i]);
            lemma_be16_bytes_at(port, b, 2);
            assert(forall|i: int| 0 <= i < 4 ==> b[4 + i] == le32_bytes(flowinfo)[i]);
            lemma_le32_bytes_at(flowinfo, b, 4);
            assert(forall|i: int| 0 <= i < 16 ==> b[8 + i] == be128_bytes(addr)[i]);
            lemma_be128_bytes_at(addr, b, 8);
            assert(forall|i: int| 0 <= i < 4 ==> b[24 + i] == le32_bytes(scope_id)[i]);
            lemma_le32_bytes_at(scope_id, b, 24);
        },
    }
}

/// The flattening of an address list: each element's encoding, back-to-back.
pub open spec fn spec_encode_list(addrs: Seq<TransportAddress>) -> Seq<u8>
    decreases addrs.len(),
{
    if addrs.len() == 0 {
        Seq::empty()
    } else {
        spec_encode_list(addrs.drop_last()) + spec_encode(addrs.last())
    }
}

/// Flattens `addrs` into one contiguous buffer for a multi-address socket
/// call, each element at its family's natural size.
pub fn encode_list(addrs: &Vec<TransportAddress>) -> (r: Vec<u8>)
    ensures
        r@ == spec_encode_list(addrs@),
{
    let mut out: Vec<u8> = Vec::new();
    let mut i: usize = 0;
    while i < addrs.len()
        invariant
            i <= addrs@.len(),
            out@ =~= spec_encode_list(addrs@.subrange(0, i as int)),
        decreases addrs@.len() - i,
    {
        let mut one = encode(&addrs[i]);
        proof {
            assert(addrs@.subrange(0, i + 1).drop_last() =~= addrs@.subrange(0, i as int));
            assert(addrs@.subrange(0, i + 1).last() == addrs@[i as int]);
        }
        out.append(&mut one);
        i = i + 1;
    }
    proof {
        assert(addrs@.subrange(0, addrs@.len() as int) =~= addrs@);
    }
    out
}

/// The reading of `count` packed OS address structures starting at `off`:
/// each element at its family's natural size, an unknown family a hard
/// failure, a buffer too short for the next element an input failure.
pub open spec fn spec_parse_addrs(b: Seq<u8>, off: int, count: int) -> Result<
    Seq<TransportAddress>,
    SctpError,
>
    decreases count,
{
    if count <= 0 {
        Ok(Seq::empty())
    } else if off + 2 > b.len() {
        Err(SctpError::InvalidInput)
    } else if le16_at(b, off) == AF_INET {
        if off + SOCKADDR_IN_LEN <= b.len() {
            match spec_parse_addrs(b, off + SOCKADDR_IN_LEN, count - 1) {
                Ok(rest) => Ok(seq![spec_decode_v4_at(b, off)] + rest),
                Err(e) => Err(e),
            }
        } else {
            Err(SctpError::InvalidInput)
        }
    } else if le16_at(b, off) == AF_INET6 {
        if off + SOCKADDR_IN6_LEN <= b.len() {
            match spec_parse_addrs(b, off + SOCKADDR_IN6_LEN, count - 1) {
                Ok(rest) => Ok(seq![spec_decode_v6_at(b, off)] + rest),
                Err(e) => Err(e),
            }
        } else {
            Err(SctpError::InvalidInput)
        }
    } else {
        Err(SctpError::UnsupportedFamily(le16_at(b, off)))
    }
}

/// Walks the packed address buffer an OS multihoming query returned and
/// decodes its `count` entries, each at its family's natural stride. Fails
/// with `UnsupportedFamily` on an entry whose family tag is neither IPv4
/// nor IPv6, and with `InvalidInput` where the buffer is too short.
pub fn parse_addr_list(buf: &[u8], count: usize) -> (r: Result<Vec<TransportAddress>, SctpError>)
    ensures
        match (r, spec_parse_addrs(buf@, 0, count as int)) {
            (Ok(v), Ok(s)) => v@ == s,
            (Err(e), Err(se)) => e == se,
            _ => false,
        },
{
    let mut out: Vec<TransportAddress> = Vec::new();
    let mut off: usize = 0;
    let mut i: usize = 0;
    while i < count
        invariant
            i <= count,
            off <= buf@.len(),
            spec_parse_addrs(buf@, 0, count as int) == (match spec_parse_addrs(
                buf@,
                off as int,
                count as int - i as int,
            ) {
                Ok(rest) => Ok::<Seq<TransportAddress>, SctpError>(out@ + rest),
                Err(e) => Err::<Seq<TransportAddress>, SctpError>(e),
            }),
        decreases count - i,
    {
        if buf.len() - off < 2 {
            return Err(SctpError::InvalidInput);
        }
        let family = read_u16_le(buf, off);
        if family == AF_INET {
            if buf.len() - off >= SOCKADDR_IN_LEN {
                let a = TransportAddress::V4 {
                    addr: read_u32_be(buf, off + 4),
                    port: read_u16_be(buf, off + 2),
                };
                proof {
                    let n = count as int - i as int;
                    assert(a == spec_decode_v4_at(buf@, off as int));
                    assert(spec_parse_addrs(buf@, off as int, n) == (match spec_parse_addrs(
                        buf@,
                        off as int + SOCKADDR_IN_LEN as int,
                        n - 1,
                    ) {
                        Ok(rest) => Ok::<Seq<TransportAddress>, SctpError>(
                            seq![spec_decode_v4_at(buf@, off as int)] + rest,
                        ),
                        Err(e) => Err::<Seq<TransportAddress>, SctpError>(e),
                    }));
                    if let Ok(rest) = spec_parse_addrs(
                        buf@,
                        off as int + SOCKADDR_IN_LEN as int,
                        n - 1,
                    ) {
                        assert(out@ + (seq![a] + rest) =~= (out@ + seq![a]) + rest);
                    }
                }
                let ghost prev = out@;
                out.push(a);
                proof {
                    assert(out@ =~= prev + seq![a]);
                }
                off = off + SOCKADDR_IN_LEN;
            } else {
                return Err(SctpError::InvalidInput);
            }
        } else if family == AF_INET6 {
            if buf.len() - off >= SOCKADDR_IN6_LEN {
                let a = TransportAddress::V6 {
                    addr: read_u128_be(buf, off + 8),
                    port: read_u16_be(buf, off + 2),
                    flowinfo: read_u32_le(buf, off + 4),
                    scope_id: read_u32_le(buf, off + 24),
                };
                proof {
                    let n = count as int - i as int;
                    assert(a == spec_decode_v6_at(buf@, off as int));
                    assert(spec_parse_addrs(buf@, off as int, n) == (match spec_parse_addrs(
                        buf@,
                        off as int + SOCKADDR_IN6_LEN as int,
                        n - 1,
                    ) {
                        Ok(rest) => Ok::<Seq<TransportAddress>, SctpError>(
                            seq![spec_decode_v6_at(buf@, off as int)] + rest,
                        ),
                        Err(e) => Err::<Seq<TransportAddress>, SctpError>(e),
                    }));
                    if let Ok(rest) = spec_parse_addrs(
                        buf@,
                        off as int + SOCKADDR_IN6_LEN as int,
                        n - 1,
                    ) {
                        assert(out@ + (seq![a] + rest) =~= (out@ + seq![a]) + rest);
                    }
                }
                let ghost prev = out@;
                out.push(a);
                proof {
                    assert(out@ =~= prev + seq![a]);
                }
                off = off + SOCKADDR_IN6_LEN;
            } else {
                return Err(SctpError::InvalidInput);
            }
        } else {
            return Err(SctpError::UnsupportedFamily(family));
        }
        i = i + 1;
    }
    proof {
        assert(out@ + Seq::<TransportAddress>::empty() =~= out@);
    }
    Ok(out)
}

} // verus!
