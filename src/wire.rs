//! Payloads that follow a tag on the tunnel: the destination port of a TCP
//! connection and the host's timestamp, both big-endian.
use vstd::prelude::*;
use crate::tag::{ServiceTag, tag_wire};

verus! {

/// The two bytes of `port`, most significant first.
pub open spec fn port_wire(port: u16) -> Seq<u8> {
    seq![(port / 256) as u8, (port % 256) as u8]
}

/// The port that two bytes spell, most significant first.
pub open spec fn port_of(b: Seq<u8>) -> int {
    b[0] * 256 + b[1]
}

/// The eight bytes of `t`, most significant first.
pub open spec fn timestamp_wire(t: u64) -> Seq<u8> {
    seq![
        (t >> 56u64) as u8,
        (t >> 48u64) as u8,
        (t >> 40u64) as u8,
        (t >> 32u64) as u8,
        (t >> 24u64) as u8,
        (t >> 16u64) as u8,
        (t >> 8u64) as u8,
        t as u8,
    ]
}

/// The value that eight bytes spell, most significant first.
pub open spec fn timestamp_of(b: Seq<u8>) -> u64 {
    (b[0] as u64) << 56u64 | (b[1] as u64) << 48u64 | (b[2] as u64) << 40u64 | (b[3] as u64)
        << 32u64 | (b[4] as u64) << 24u64 | (b[5] as u64) << 16u64 | (b[6] as u64) << 8u64 | (
    b[7] as u64)
}

pub fn encode_port(port: u16) -> (r: [u8; 2])
    ensures
        r@ == port_wire(port),
{
    let r: [u8; 2] = [(port / 256) as u8, (port % 256) as u8];
    assert(r@ =~= port_wire(port));
    r
}

pub fn decode_port(b: [u8; 2]) -> (r: u16)
    ensures
        r == port_of(b@),
{
    (b[0] as u16) * 256 + (b[1] as u16)
}

pub fn encode_timestamp(t: u64) -> (r: [u8; 8])
    ensures
        r@ == timestamp_wire(t),
{
    let r: [u8; 8] = [
        (t >> 56u64) as u8,
        (t >> 48u64) as u8,
        (t >> 40u64) as u8,
        (t >> 32u64) as u8,
        (t >> 24u64) as u8,
        (t >> 16u64) as u8,
        (t >> 8u64) as u8,
        t as u8,
    ];
    assert(r@ =~= timestamp_wire(t));
    r
}

pub fn decode_timestamp(b: [u8; 8]) -> (r: u64)
    ensures
        r == timestamp_of(b@),
{
    (b[0] as u64) << 56u64 | (b[1] as u64) << 48u64 | (b[2] as u64) << 40u64 | (b[3] as u64)
        << 32u64 | (b[4] as u64) << 24u64 | (b[5] as u64) << 16u64 | (b[6] as u64) << 8u64 | (
    b[7] as u64)
}

/// What a guest sends to open a forwarded TCP connection: the `tcp` tag,
/// then the destination port.
pub fn tcp_request(port: u16) -> (r: Vec<u8>)
    ensures
        r@ == tag_wire(ServiceTag::Tcp) + port_wire(port),
{
    let tag = ServiceTag::Tcp.to_bytes();
    let p = encode_port(port);
    let mut r: Vec<u8> = Vec::new();
    r.push(tag[0]);
    r.push(tag[1]);
    r.push(tag[2]);
    r.push(tag[3]);
    r.push(p[0]);
    r.push(p[1]);
    assert(r@ =~= tag_wire(ServiceTag::Tcp) + port_wire(port));
    r
}

/// A port or a timestamp reads back as what was written.
pub proof fn wire_round_trip(port: u16, t: u64)
    ensures
        port_of(port_wire(port)) == port,
        timestamp_of(timestamp_wire(t)) == t,
        port_wire(port).len() == 2,
        timestamp_wire(t).len() == 8,
{
    let b = timestamp_wire(t);
    let (b0, b1, b2, b3, b4, b5, b6, b7) = (b[0], b[1], b[2], b[3], b[4], b[5], b[6], b[7]);
    assert(b0 == (t >> 56u64) as u8 && b1 == (t >> 48u64) as u8 && b2 == (t >> 40u64) as u8 && b3
        == (t >> 32u64) as u8 && b4 == (t >> 24u64) as u8 && b5 == (t >> 16u64) as u8 && b6 == (t
        >> 8u64) as u8 && b7 == t as u8);
    assert((b0 as u64) << 56u64 | (b1 as u64) << 48u64 | (b2 as u64) << 40u64 | (b3 as u64)
        << 32u64 | (b4 as u64) << 24u64 | (b5 as u64) << 16u64 | (b6 as u64) << 8u64 | (b7 as u64)
        == t) by (bit_vector)
        requires
            b0 == (t >> 56u64) as u8,
            b1 == (t >> 48u64) as u8,
            b2 == (t >> 40u64) as u8,
            b3 == (t >> 32u64) as u8,
            b4 == (t >> 24u64) as u8,
            b5 == (t >> 16u64) as u8,
            b6 == (t >> 8u64) as u8,
            b7 == t as u8,
    ;
}

} // verus!
