//! The transport-server mode selector: a server listens on TCP only, on
//! UDP only, or multiplexes both on one address. The transport loops
//! themselves do socket I/O and live outside the verified core; they feed
//! every inbound buffer through the handler unchanged.

use vstd::prelude::*;

verus! {

/// Which transport server variant to run; multiplexed is the default.
#[derive(Clone, Copy, PartialEq, Eq, Structural, Debug)]
pub enum StunServerEnum {
    TcpStunServer,
    UdpStunServer,
    MultiplexedStunServer,
}

} // verus!
