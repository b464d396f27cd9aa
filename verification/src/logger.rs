//! The entries that the firewall hands to its log: one for each packet that
//! it decides, and one for each change of the blocklist. Writing them out is
//! the caller's part.

use crate::address::IpAddress;
use crate::config::{Direction, Protocol};
use vstd::prelude::*;

verus! {

/// What was done with the packet that an entry is about.
#[derive(Clone, Copy, Debug, PartialEq, Eq, Structural)]
pub enum LogKind {
    Allowed,
    Blocked,
    Logged,
}

/// The log entry for one packet.
#[derive(Clone, Copy, Debug, PartialEq, Eq, Structural)]
pub struct LogRecord {
    pub kind: LogKind,
    pub src_ip: IpAddress,
    pub dst_ip: IpAddress,
    pub src_port: Option<u16>,
    pub dst_port: Option<u16>,
    pub protocol: Protocol,
    pub direction: Direction,
    pub size: usize,
}

/// The log entry for a change of the blocklist: the address, and what was
/// done with it.
#[derive(Clone, Debug)]
pub struct BlocklistUpdate {
    pub ip: IpAddress,
    pub action: String,
}

#[derive(Clone, Copy, Debug)]
pub struct Logger {}

impl Logger {
    pub fn new() -> Logger {
        Logger {  }
    }

    /// The entry for a packet that was let through.
    pub fn log_allowed_packet(
        &self,
        src_ip: IpAddress,
        dst_ip: IpAddress,
        src_port: Option<u16>,
        dst_port: Option<u16>,
        protocol: Protocol,
        direction: Direction,
        size: usize,
    ) -> (record: LogRecord)
        ensures
            record == (LogRecord {
                kind: LogKind::Allowed,
                src_ip,
                dst_ip,
                src_port,
                dst_port,
                protocol,
                direction,
                size,
            }),
    {
        LogRecord {
            kind: LogKind::Allowed,
            src_ip,
            dst_ip,
            src_port,
            dst_port,
            protocol,
            direction,
            size,
        }
    }

    /// The entry for a packet that was blocked.
    pub fn log_blocked_packet(
        &self,
        src_ip: IpAddress,
        dst_ip: IpAddress,
        src_port: Option<u16>,
        dst_port: Option<u16>,
        protocol: Protocol,
        direction: Direction,
        size: usize,
    ) -> (record: LogRecord)
        ensures
            record == (LogRecord {
                kind: LogKind::Blocked,
                src_ip,
                dst_ip,
                src_port,
                dst_port,
                protocol,
                direction,
                size,
            }),
    {
        LogRecord {
            kind: LogKind::Blocked,
            src_ip,
            dst_ip,
            src_port,
            dst_port,
            protocol,
            direction,
            size,
        }
    }

    /// The entry for a packet that was only taken note of.
    pub fn log_packet(
        &self,
        src_ip: IpAddress,
        dst_ip: IpAddress,
        src_port: Option<u16>,
        dst_port: Option<u16>,
        protocol: Protocol,
        direction: Direction,
        size: usize,
    ) -> (record: LogRecord)
        ensures
            record == (LogRecord {
                kind: LogKind::Logged,
                src_ip,
                dst_ip,
                src_port,
                dst_port,
                protocol,
                direction,
                size,
            }),
    {
        LogRecord {
            kind: LogKind::Logged,
            src_ip,
            dst_ip,
            src_port,
            dst_port,
            protocol,
            direction,
            size,
        }
    }

    /// The entry for a change of the blocklist.
    pub fn log_blocklist_update(&self, ip: &IpAddress, action: &str) -> (update: BlocklistUpdate)
        ensures
            update.ip == *ip,
            update.action@ == action@,
    {
        BlocklistUpdate { ip: *ip, action: action.to_owned() }
    }
}

} // verus!
