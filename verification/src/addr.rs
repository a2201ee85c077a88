//! Plain address types: link-layer addresses, IPv4 endpoints, and the
//! medium kind a driver reports.

use vstd::prelude::*;

verus! {

/// Whether frames on a device carry a link-layer (Ethernet) header or are
/// raw IP, as on loopback.
#[derive(Clone, Copy, PartialEq, Eq, Structural, Debug)]
pub enum Medium {
    /// Raw IP frames without a link header.
    Ip,
    /// Ethernet frames: a 14-byte link header precedes the IP packet.
    Ethernet,
}

/// A 48-bit link-layer (MAC) address. All-zero for mediums without a real
/// link layer.
#[derive(Clone, Copy, PartialEq, Eq, Debug)]
pub struct EthernetAddress {
    pub octets: [u8; 6],
}

impl EthernetAddress {
    /// The all-zero address used by devices without a link layer.
    pub open spec fn is_zero_spec(&self) -> bool {
        forall|i: int| 0 <= i < 6 ==> self.octets@[i] == 0
    }

    pub fn from_bytes(bytes: &[u8]) -> (r: Self)
        requires
            bytes@.len() == 6,
        ensures
            r.octets@ == bytes@,
    {
        let octets: [u8; 6] = [bytes[0], bytes[1], bytes[2], bytes[3], bytes[4], bytes[5]];
        proof {
            assert(octets@ =~= bytes@);
        }
        EthernetAddress { octets }
    }

    pub fn zeroed() -> (r: Self)
        ensures
            r.is_zero_spec(),
    {
        EthernetAddress { octets: [0, 0, 0, 0, 0, 0] }
    }

    pub fn is_zero(&self) -> (r: bool)
        ensures
            r == self.is_zero_spec(),
    {
        let mut i: usize = 0;
        while i < 6
            invariant
                0 <= i <= 6,
                forall|j: int| 0 <= j < i ==> self.octets@[j] == 0,
            decreases 6 - i,
        {
            if self.octets[i] != 0 {
                return false;
            }
            i = i + 1;
        }
        true
    }
}

/// An IPv4 endpoint: the address as a big-endian 32-bit value, plus a port.
/// An `ip` of zero stands for the unspecified (wildcard) address.
#[derive(Clone, Copy, PartialEq, Eq, Structural, Debug)]
pub struct SocketAddrV4 {
    pub ip: u32,
    pub port: u16,
}

impl SocketAddrV4 {
    pub open spec fn is_wildcard_spec(&self) -> bool {
        self.ip == 0
    }

    pub fn new(ip: u32, port: u16) -> (r: Self)
        ensures
            r.ip == ip,
            r.port == port,
    {
        SocketAddrV4 { ip, port }
    }
}

/// The numeric IPv4 address packed from four octets, most significant first.
pub open spec fn ipv4_from_octets(a0: u8, a1: u8, a2: u8, a3: u8) -> u32 {
    ((a0 as int) * 0x1000000 + (a1 as int) * 0x10000 + (a2 as int) * 0x100 + (a3 as int)) as u32
}

/// Split a packed IPv4 address back into its four octets.
pub fn ipv4_octets(ip: u32) -> (r: (u8, u8, u8, u8))
    ensures
        ipv4_from_octets(r.0, r.1, r.2, r.3) == ip,
{
    let a0: u8 = (ip / 0x1000000) as u8;
    let a1: u8 = ((ip / 0x10000) % 0x100) as u8;
    let a2: u8 = ((ip / 0x100) % 0x100) as u8;
    let a3: u8 = (ip % 0x100) as u8;
    proof {
        assert(ipv4_from_octets(a0, a1, a2, a3) == ip) by {
            assert((a0 as int) == ip as int / 0x1000000);
            assert((a1 as int) == (ip as int / 0x10000) % 0x100);
            assert((a2 as int) == (ip as int / 0x100) % 0x100);
            assert((a3 as int) == ip as int % 0x100);
        };
    }
    (a0, a1, a2, a3)
}

} // verus!
