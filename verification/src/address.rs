//! Plain-value model of a transport address: the protocol logic reads only
//! the address family, the raw address octets and the port, so an address is
//! carried as exactly those values.

use vstd::prelude::*;

verus! {

/// An IP address as its raw octets, most-significant first: four octets for
/// version 4, sixteen for version 6.
#[derive(Clone, Copy, PartialEq, Eq, Debug)]
pub enum IpAddress {
    V4([u8; 4]),
    V6([u8; 16]),
}

impl IpAddress {
    /// The raw address octets, most-significant first.
    pub open spec fn spec_octets(self) -> Seq<u8> {
        match self {
            IpAddress::V4(octets) => octets@,
            IpAddress::V6(octets) => octets@,
        }
    }

    /// The family byte of the STUN address encoding: 0x01 for version 4,
    /// 0x02 for version 6.
    pub open spec fn spec_family(self) -> u16 {
        match self {
            IpAddress::V4(_) => 0x01,
            IpAddress::V6(_) => 0x02,
        }
    }

    /// The declared value length of a STUN address attribute for this
    /// family: 8 bytes for version 4, 20 for version 6.
    pub open spec fn spec_attribute_length(self) -> u16 {
        match self {
            IpAddress::V4(_) => 8,
            IpAddress::V6(_) => 20,
        }
    }
}

/// A transport address: an IP address and a port.
#[derive(Clone, Copy, PartialEq, Eq, Debug)]
pub struct SocketAddress {
    pub ip: IpAddress,
    pub port: u16,
}

} // verus!
