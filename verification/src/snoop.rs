//! SYN snooping: parse an inbound frame just far enough to decide whether it
//! is the first packet of a new TCP connection (SYN set, ACK clear), and if
//! so extract its source and destination endpoints.
//!
//! This hook only observes traffic. A packet that fails any parsing stage is
//! ignored here and still flows on to the protocol engine unmodified.

use vstd::prelude::*;

use crate::addr::{ipv4_from_octets, SocketAddrV4};

verus! {

/// Protocol number that marks a TCP payload in an IPv4 header.
pub const IP_PROTOCOL_TCP: u8 = 6;

/// A big-endian 16-bit field.
pub open spec fn be16(hi: u8, lo: u8) -> int {
    (hi as int) * 256 + (lo as int)
}

/// Length in bytes of the IPv4 header, from the IHL nibble.
pub open spec fn ipv4_header_len(b: Seq<u8>) -> int {
    ((b[0] as int) % 16) * 4
}

/// The IPv4 total-length field: header plus payload.
pub open spec fn ipv4_total_len(b: Seq<u8>) -> int {
    be16(b[2], b[3])
}

/// A well-formed IPv4 packet: long enough for the fixed header, the header
/// length sane and within the total length, and the whole total length
/// present in the buffer.
pub open spec fn ipv4_ok(b: Seq<u8>) -> bool {
    &&& b.len() >= 20
    &&& b.len() >= ipv4_header_len(b)
    &&& ipv4_header_len(b) <= ipv4_total_len(b)
    &&& b.len() >= ipv4_total_len(b)
    &&& ipv4_header_len(b) >= 20
}

/// The next-header (protocol) field of an IPv4 packet.
pub open spec fn ipv4_protocol(b: Seq<u8>) -> u8 {
    b[9]
}

/// The IPv4 payload: the bytes between the end of the header and the total
/// length.
pub open spec fn ipv4_payload(b: Seq<u8>) -> Seq<u8> {
    b.subrange(ipv4_header_len(b), ipv4_total_len(b))
}

pub open spec fn ipv4_src(b: Seq<u8>) -> u32 {
    ipv4_from_octets(b[12], b[13], b[14], b[15])
}

pub open spec fn ipv4_dst(b: Seq<u8>) -> u32 {
    ipv4_from_octets(b[16], b[17], b[18], b[19])
}

/// Length in bytes of the TCP header, from the data-offset nibble.
pub open spec fn tcp_header_len(t: Seq<u8>) -> int {
    ((t[12] as int) / 16) * 4
}

/// A well-formed TCP segment: the fixed header present and the data offset
/// sane and within the buffer.
pub open spec fn tcp_ok(t: Seq<u8>) -> bool {
    &&& t.len() >= 20
    &&& tcp_header_len(t) >= 20
    &&& t.len() >= tcp_header_len(t)
}

pub open spec fn tcp_syn(t: Seq<u8>) -> bool {
    ((t[13] as int) / 2) % 2 == 1
}

pub open spec fn tcp_ack(t: Seq<u8>) -> bool {
    ((t[13] as int) / 16) % 2 == 1
}

pub open spec fn tcp_src_port(t: Seq<u8>) -> u16 {
    be16(t[0], t[1]) as u16
}

pub open spec fn tcp_dst_port(t: Seq<u8>) -> u16 {
    be16(t[2], t[3]) as u16
}

/// The IP packet within a frame: behind a 14-byte link header on Ethernet
/// mediums, the frame itself on raw-IP mediums.
pub open spec fn ip_part(pkt: Seq<u8>, is_ethernet: bool) -> Option<Seq<u8>> {
    if is_ethernet {
        if pkt.len() >= 14 {
            Some(pkt.skip(14))
        } else {
            None
        }
    } else {
        Some(pkt)
    }
}

/// What the snoop hook reports for a frame: the (source, destination)
/// endpoints of a new-connection TCP SYN, or nothing for every other frame,
/// malformed ones included.
pub open spec fn syn_snoop(pkt: Seq<u8>, is_ethernet: bool) -> Option<(SocketAddrV4, SocketAddrV4)> {
    match ip_part(pkt, is_ethernet) {
        Option::None => Option::None,
        Option::Some(b) => {
            if ipv4_ok(b) && ipv4_protocol(b) == IP_PROTOCOL_TCP && tcp_ok(ipv4_payload(b)) {
                let t = ipv4_payload(b);
                if tcp_syn(t) && !tcp_ack(t) {
                    Option::Some(
                        (
                            SocketAddrV4 { ip: ipv4_src(b), port: tcp_src_port(t) },
                            SocketAddrV4 { ip: ipv4_dst(b), port: tcp_dst_port(t) },
                        ),
                    )
                } else {
                    Option::None
                }
            } else {
                Option::None
            }
        },
    }
}

/// Parse a frame and report the endpoints of a new-connection TCP SYN, if
/// that is what the frame holds.
pub fn snoop_tcp_syn(buf: &[u8], is_ethernet: bool) -> (r: Option<(SocketAddrV4, SocketAddrV4)>)
    ensures
        r == syn_snoop(buf@, is_ethernet),
{
    let off: usize = if is_ethernet {
        if buf.len() < 14 {
            return None;
        }
        14
    } else {
        0
    };
    let ghost b: Seq<u8> = if is_ethernet { buf@.skip(14) } else { buf@ };
    proof {
        assert(ip_part(buf@, is_ethernet) == Some(b));
        assert(b.len() == buf@.len() - off);
        assert(forall|i: int| 0 <= i < b.len() ==> b[i] == buf@[off + i]);
    }
    let n: usize = buf.len() - off;
    if n < 20 {
        return None;
    }
    let ihl: usize = ((buf[off] % 16) as usize) * 4;
    let total: usize = (buf[off + 2] as usize) * 256 + (buf[off + 3] as usize);
    proof {
        assert(ihl == ipv4_header_len(b));
        assert(total == ipv4_total_len(b));
    }
    if !(n >= ihl && ihl <= total && n >= total && ihl >= 20) {
        return None;
    }
    assert(ipv4_ok(b));
    if buf[off + 9] != IP_PROTOCOL_TCP {
        return None;
    }
    // The TCP segment is the IPv4 payload: bytes [ihl, total) of the packet.
    let ghost t: Seq<u8> = ipv4_payload(b);
    let t0: usize = off + ihl;
    let tlen: usize = total - ihl;
    proof {
        assert(t.len() == tlen);
        assert(forall|k: int| 0 <= k < t.len() ==> t[k] == b[ihl + k]);
        assert(forall|k: int| 0 <= k < t.len() ==> t[k] == buf@[t0 + k]);
    }
    if tlen < 20 {
        return None;
    }
    let thl: usize = ((buf[t0 + 12] / 16) as usize) * 4;
    proof {
        assert(thl == tcp_header_len(t));
    }
    if thl < 20 || tlen < thl {
        return None;
    }
    assert(tcp_ok(t));
    let flags = buf[t0 + 13];
    let syn = (flags / 2) % 2 == 1;
    let ack = (flags / 16) % 2 == 1;
    proof {
        assert(syn == tcp_syn(t));
        assert(ack == tcp_ack(t));
    }
    if !syn || ack {
        return None;
    }
    let src_ip: u32 = pack_ipv4(buf[off + 12], buf[off + 13], buf[off + 14], buf[off + 15]);
    let dst_ip: u32 = pack_ipv4(buf[off + 16], buf[off + 17], buf[off + 18], buf[off + 19]);
    let src_port: u16 = (buf[t0] as u16) * 256 + (buf[t0 + 1] as u16);
    let dst_port: u16 = (buf[t0 + 2] as u16) * 256 + (buf[t0 + 3] as u16);
    proof {
        assert(src_ip == ipv4_src(b));
        assert(dst_ip == ipv4_dst(b));
        assert(src_port == tcp_src_port(t));
        assert(dst_port == tcp_dst_port(t));
    }
    Some(
        (
            SocketAddrV4 { ip: src_ip, port: src_port },
            SocketAddrV4 { ip: dst_ip, port: dst_port },
        ),
    )
}

/// Pack four octets into one big-endian 32-bit address value.
pub fn pack_ipv4(a0: u8, a1: u8, a2: u8, a3: u8) -> (r: u32)
    ensures
        r == ipv4_from_octets(a0, a1, a2, a3),
{
    (a0 as u32) * 0x1000000 + (a1 as u32) * 0x10000 + (a2 as u32) * 0x100 + (a3 as u32)
}

} // verus!
