//! The normalized description of one observed packet.

use crate::address::IpAddress;
use crate::config::{Direction, Protocol};
use vstd::prelude::*;

verus! {

/// What the firewall reads of a packet. A packet without a transport header
/// that carries ports has none.
#[derive(Clone, Copy, Debug, PartialEq, Eq, Structural)]
pub struct Packet {
    pub src_ip: IpAddress,
    pub dst_ip: IpAddress,
    pub src_port: Option<u16>,
    pub dst_port: Option<u16>,
    pub protocol: Protocol,
    pub direction: Direction,
    /// Payload size in bytes.
    pub size: usize,
    /// Capture time, in seconds since the Unix epoch.
    pub timestamp: u64,
}

impl Packet {
    pub fn new(
        src_ip: IpAddress,
        dst_ip: IpAddress,
        src_port: Option<u16>,
        dst_port: Option<u16>,
        protocol: Protocol,
        direction: Direction,
        size: usize,
        timestamp: u64,
    ) -> (packet: Packet)
        ensures
            packet == (Packet {
                src_ip,
                dst_ip,
                src_port,
                dst_port,
                protocol,
                direction,
                size,
                timestamp,
            }),
    {
        Packet { src_ip, dst_ip, src_port, dst_port, protocol, direction, size, timestamp }
    }

    pub open spec fn spec_is_outbound(&self) -> bool {
        self.direction == Direction::Outbound
    }

    pub open spec fn spec_is_inbound(&self) -> bool {
        self.direction == Direction::Inbound
    }

    #[verifier::when_used_as_spec(spec_is_outbound)]
    pub fn is_outbound(&self) -> (r: bool)
        ensures
            r == self.spec_is_outbound(),
    {
        self.direction == Direction::Outbound
    }

    #[verifier::when_used_as_spec(spec_is_inbound)]
    pub fn is_inbound(&self) -> (r: bool)
        ensures
            r == self.spec_is_inbound(),
    {
        self.direction == Direction::Inbound
    }
}

} // verus!
