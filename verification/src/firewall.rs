//! The firewall: one decision per packet, made in stages. The geo layer and
//! the blocklist screen a packet's endpoints first, and an exempt address
//! passes both; the rules come next, and the default action last. A packet
//! that the rules or the default block counts as an attempt of its source.

use crate::address::IpAddress;
use crate::blocker::{Blocker, BlockerState};
use crate::config::{duplicate_rules, Action, AppConfig, Direction, FirewallRule, Protocol};
use crate::error::FirewallError;
use crate::logger::{LogKind, LogRecord, Logger};
use crate::packet::Packet;
use crate::rules::{spec_first_match, RuleEngine};
use crate::simple_geo::{uppercased, GeoPolicy, SimpleGeoFirewall};
use vstd::prelude::*;

verus! {

/// The stage that decided a packet.
#[derive(Clone, Copy, Debug, PartialEq, Eq, Structural)]
pub enum Stage {
    /// The geo layer blocked the remote endpoint.
    Geo,
    /// The blocklist held one of the endpoints.
    Blocklist,
    /// The rule of this index was the first to match.
    Rule(usize),
    /// No rule matched, and the default action was taken.
    Default,
}

/// The decision for one packet: what is done with it, which stage decided,
/// and the entry for the log.
#[derive(Clone, Copy, Debug, PartialEq, Eq, Structural)]
pub struct Verdict {
    pub action: Action,
    pub stage: Stage,
    pub log: LogRecord,
}

/// What was read of a frame's transport header.
#[derive(Clone, Copy, Debug, PartialEq, Eq, Structural)]
pub enum Transport {
    Tcp { src_port: u16, dst_port: u16 },
    Udp { src_port: u16, dst_port: u16 },
    Icmp,
    /// Any other protocol.
    Other,
}

/// What was read of an IPv4 frame. The transport is `None` where the frame
/// names TCP, UDP or ICMP and the header could not be read.
#[derive(Clone, Copy, Debug, PartialEq, Eq, Structural)]
pub struct Ipv4Frame {
    pub source: u32,
    pub destination: u32,
    pub payload_len: usize,
    pub transport: Option<Transport>,
    pub timestamp: u64,
}

/// What was read of an IPv6 frame.
#[derive(Clone, Copy, Debug, PartialEq, Eq, Structural)]
pub struct Ipv6Frame {
    pub source: u128,
    pub destination: u128,
    pub payload_len: usize,
    pub timestamp: u64,
}

/// A hardware address.
#[derive(Clone, Copy, Debug, PartialEq, Eq, Structural)]
pub struct MacAddress(pub u8, pub u8, pub u8, pub u8, pub u8, pub u8);

/// What a link-layer frame carries.
#[derive(Clone, Copy, Debug, PartialEq, Eq, Structural)]
pub enum FramePayload {
    Ipv4(Ipv4Frame),
    Ipv6(Ipv6Frame),
    /// Anything else, and an IP header that could not be read.
    Other,
}

/// What was read of a link-layer frame.
#[derive(Clone, Copy, Debug, PartialEq, Eq, Structural)]
pub struct EthernetFrame {
    pub source: MacAddress,
    pub destination: MacAddress,
    pub payload: FramePayload,
}

/// What the firewall reads of a network interface.
#[derive(Clone, Debug)]
pub struct InterfaceInfo {
    pub name: String,
    pub is_up: bool,
    pub is_loopback: bool,
    pub has_addresses: bool,
}

/// The endpoint on the far side of a flow: the source of an inbound packet,
/// the destination of an outbound one. Where the direction is not known,
/// neither.
pub open spec fn remote_address(src: IpAddress, dst: IpAddress, direction: Direction) -> Option<
    IpAddress,
> {
    match direction {
        Direction::Inbound => Some(src),
        Direction::Outbound => Some(dst),
        Direction::Any => None,
    }
}

/// Whether the geo layer stops a flow: it blocks the far endpoint, and the
/// far endpoint is not exempt. An exempt address passes whatever range it
/// falls in, whether the blocker is on or off.
pub open spec fn spec_geo_blocks(
    geo: GeoPolicy,
    whitelist: Set<IpAddress>,
    src: IpAddress,
    dst: IpAddress,
    direction: Direction,
) -> bool {
    match remote_address(src, dst, direction) {
        Some(remote) => !whitelist.contains(remote) && geo.blocks(remote),
        None => false,
    }
}

/// The stage that stops a flow before the rules are tried, if one does: the
/// geo layer first, unless the far endpoint is exempt; then the blocklist,
/// which stops a flow of which either endpoint is blocked.
pub open spec fn spec_screen(
    geo: GeoPolicy,
    blocker: BlockerState,
    src: IpAddress,
    dst: IpAddress,
    direction: Direction,
    now: u128,
) -> Option<Stage> {
    if spec_geo_blocks(geo, blocker.whitelist, src, dst, direction) {
        Some(Stage::Geo)
    } else if blocker.is_blocked(src, now) || blocker.is_blocked(dst, now) {
        Some(Stage::Blocklist)
    } else {
        None
    }
}

/// The log entry for a flow that was stopped before the rules: it names the
/// endpoints, and neither ports nor protocol.
pub open spec fn screen_log(src: IpAddress, dst: IpAddress, direction: Direction, size: usize) -> LogRecord {
    LogRecord {
        kind: LogKind::Blocked,
        src_ip: src,
        dst_ip: dst,
        src_port: None,
        dst_port: None,
        protocol: Protocol::Any,
        direction,
        size,
    }
}

/// The verdict on a flow that is stopped before the rules, if it is.
pub open spec fn spec_screen_verdict(
    geo: GeoPolicy,
    blocker: BlockerState,
    src: IpAddress,
    dst: IpAddress,
    direction: Direction,
    size: usize,
    now: u128,
) -> Option<Verdict> {
    match spec_screen(geo, blocker, src, dst, direction, now) {
        Some(stage) => Some(
            Verdict { action: Action::Block, stage, log: screen_log(src, dst, direction, size) },
        ),
        None => None,
    }
}

/// What the rules and the default action make of a packet: the action of the
/// first rule that applies, or else the default action; and which of the two
/// decided.
pub open spec fn spec_decide(rules: Seq<FirewallRule>, default_action: Action, packet: Packet) -> (
    Action,
    Stage,
) {
    match spec_first_match(rules, packet) {
        Some(i) => (rules[i].action, Stage::Rule(i as usize)),
        None => (default_action, Stage::Default),
    }
}

/// The kind of log entry that goes with an action.
pub open spec fn log_kind(action: Action) -> LogKind {
    match action {
        Action::Allow => LogKind::Allowed,
        Action::Block => LogKind::Blocked,
        Action::Log => LogKind::Logged,
    }
}

/// The log entry for a packet that the rules or the default decided.
pub open spec fn packet_log(action: Action, packet: Packet) -> LogRecord {
    LogRecord {
        kind: log_kind(action),
        src_ip: packet.src_ip,
        dst_ip: packet.dst_ip,
        src_port: packet.src_port,
        dst_port: packet.dst_port,
        protocol: packet.protocol,
        direction: packet.direction,
        size: packet.size,
    }
}

/// The verdict of the rules and the default on a packet, and the blocker
/// afterwards: a blocked packet counts as an attempt of its source.
pub open spec fn spec_handle(
    rules: Seq<FirewallRule>,
    default_action: Action,
    blocker: BlockerState,
    packet: Packet,
    now: u128,
) -> (Verdict, BlockerState) {
    let (action, stage) = spec_decide(rules, default_action, packet);
    (
        Verdict { action, stage, log: packet_log(action, packet) },
        if action == Action::Block {
            blocker.record_attempt(packet.src_ip, now)
        } else {
            blocker
        },
    )
}

/// The whole decision for one packet, and the blocker afterwards. A packet
/// that is stopped before the rules changes nothing.
pub open spec fn spec_evaluate(
    rules: Seq<FirewallRule>,
    default_action: Action,
    geo: GeoPolicy,
    blocker: BlockerState,
    packet: Packet,
    now: u128,
) -> (Verdict, BlockerState) {
    match spec_screen_verdict(
        geo,
        blocker,
        packet.src_ip,
        packet.dst_ip,
        packet.direction,
        packet.size,
        now,
    ) {
        Some(verdict) => (verdict, blocker),
        None => spec_handle(rules, default_action, blocker, packet, now),
    }
}

/// The packet that an IPv4 frame carries, where its transport header was
/// read. TCP and UDP packets have ports; the others have none.
pub open spec fn spec_ipv4_packet(frame: Ipv4Frame, direction: Direction) -> Option<Packet> {
    match frame.transport {
        Some(transport) => Some(
            Packet {
                src_ip: IpAddress::V4(frame.source),
                dst_ip: IpAddress::V4(frame.destination),
                src_port: match transport {
                    Transport::Tcp { src_port, .. } => Some(src_port),
                    Transport::Udp { src_port, .. } => Some(src_port),
                    _ => None,
                },
                dst_port: match transport {
                    Transport::Tcp { dst_port, .. } => Some(dst_port),
                    Transport::Udp { dst_port, .. } => Some(dst_port),
                    _ => None,
                },
                protocol: match transport {
                    Transport::Tcp { .. } => Protocol::TCP,
                    Transport::Udp { .. } => Protocol::UDP,
                    Transport::Icmp => Protocol::ICMP,
                    Transport::Other => Protocol::Any,
                },
                direction,
                size: frame.payload_len,
                timestamp: frame.timestamp,
            },
        ),
        None => None,
    }
}

/// The packet that an IPv6 frame carries: one without ports, of no
/// particular protocol.
pub open spec fn spec_ipv6_packet(frame: Ipv6Frame, direction: Direction) -> Packet {
    Packet {
        src_ip: IpAddress::V6(frame.source),
        dst_ip: IpAddress::V6(frame.destination),
        src_port: None,
        dst_port: None,
        protocol: Protocol::Any,
        direction,
        size: frame.payload_len,
        timestamp: frame.timestamp,
    }
}

/// What becomes of an IPv4 frame, and the blocker afterwards. The endpoints
/// are screened first, whatever the transport. A frame that passes and whose
/// transport header could not be read is dropped without a verdict.
pub open spec fn spec_process_ipv4(
    rules: Seq<FirewallRule>,
    default_action: Action,
    geo: GeoPolicy,
    blocker: BlockerState,
    frame: Ipv4Frame,
    direction: Direction,
    now: u128,
) -> (Option<Verdict>, BlockerState) {
    match spec_screen_verdict(
        geo,
        blocker,
        IpAddress::V4(frame.source),
        IpAddress::V4(frame.destination),
        direction,
        frame.payload_len,
        now,
    ) {
        Some(verdict) => (Some(verdict), blocker),
        None => match spec_ipv4_packet(frame, direction) {
            Some(packet) => {
                let (verdict, after) = spec_handle(rules, default_action, blocker, packet, now);
                (Some(verdict), after)
            },
            None => (None, blocker),
        },
    }
}

/// What becomes of an IPv6 frame, and the blocker afterwards.
pub open spec fn spec_process_ipv6(
    rules: Seq<FirewallRule>,
    default_action: Action,
    geo: GeoPolicy,
    blocker: BlockerState,
    frame: Ipv6Frame,
    direction: Direction,
    now: u128,
) -> (Verdict, BlockerState) {
    spec_evaluate(rules, default_action, geo, blocker, spec_ipv6_packet(frame, direction), now)
}

/// Which way a frame travels: outbound where this host's interface sent it,
/// inbound where it is addressed to the interface, unknown otherwise and
/// where the interface has no hardware address.
pub open spec fn spec_infer_direction(
    local: Option<MacAddress>,
    source: MacAddress,
    destination: MacAddress,
) -> Direction {
    match local {
        Some(mac) => if source == mac {
            Direction::Outbound
        } else if destination == mac {
            Direction::Inbound
        } else {
            Direction::Any
        },
        None => Direction::Any,
    }
}

/// What becomes of a link-layer frame that an interface with the hardware
/// address `local` took, and the blocker afterwards. The frame's direction
/// goes by its hardware addresses; a frame that carries no IP packet is
/// passed over.
pub open spec fn spec_process_frame(
    rules: Seq<FirewallRule>,
    default_action: Action,
    geo: GeoPolicy,
    blocker: BlockerState,
    local: Option<MacAddress>,
    frame: EthernetFrame,
    now: u128,
) -> (Option<Verdict>, BlockerState) {
    let direction = spec_infer_direction(local, frame.source, frame.destination);
    match frame.payload {
        FramePayload::Ipv4(ipv4) => spec_process_ipv4(
            rules,
            default_action,
            geo,
            blocker,
            ipv4,
            direction,
            now,
        ),
        FramePayload::Ipv6(ipv6) => {
            let (verdict, after) = spec_process_ipv6(
                rules,
                default_action,
                geo,
                blocker,
                ipv6,
                direction,
                now,
            );
            (Some(verdict), after)
        },
        FramePayload::Other => (None, blocker),
    }
}

/// Whether an interface is the one asked for. "default" asks for an
/// interface that is up, is not the loopback and has an address; any other
/// text asks for the interface of that name.
pub open spec fn interface_suits(wanted: Seq<char>, interface: InterfaceInfo) -> bool {
    if wanted == "default"@ {
        interface.is_up && !interface.is_loopback && interface.has_addresses
    } else {
        interface.name@ == wanted
    }
}

/// Interface `i` is the first that suits.
pub open spec fn is_first_suitable(wanted: Seq<char>, interfaces: Seq<InterfaceInfo>, i: int) -> bool {
    &&& 0 <= i < interfaces.len()
    &&& interface_suits(wanted, interfaces[i])
    &&& forall|j: int| 0 <= j < i ==> !interface_suits(wanted, #[trigger] interfaces[j])
}

/// The firewall as a value.
pub struct FirewallState {
    pub rules: Seq<FirewallRule>,
    pub default_action: Action,
    pub interface: Seq<char>,
    pub blocker: BlockerState,
    pub geo: GeoPolicy,
    pub running: bool,
}

impl FirewallState {
    /// The firewall that a configuration asks for, not yet running.
    pub open spec fn initial(config: AppConfig) -> FirewallState {
        FirewallState {
            rules: config.rules@,
            default_action: config.general.default_action,
            interface: config.general.interface@,
            blocker: BlockerState::initial(config.blocklist),
            geo: GeoPolicy {
                enabled: config.geo_firewall.enabled,
                blocked: config.geo_firewall.blocked_countries@.map_values(
                    |s: String| uppercased(s@),
                ),
            },
            running: false,
        }
    }

    /// The firewall with another blocker.
    pub open spec fn with_blocker(self, blocker: BlockerState) -> FirewallState {
        FirewallState { blocker, ..self }
    }

    /// The verdict on a packet at `now`, and the firewall afterwards.
    pub open spec fn evaluate(self, packet: Packet, now: u128) -> (Verdict, FirewallState) {
        let (verdict, blocker) = spec_evaluate(
            self.rules,
            self.default_action,
            self.geo,
            self.blocker,
            packet,
            now,
        );
        (verdict, self.with_blocker(blocker))
    }
}

fn duplicate_texts(list: &Vec<String>) -> (copy: Vec<String>)
    ensures
        copy@ == list@,
{
    let mut copy: Vec<String> = Vec::new();
    let mut i: usize = 0;
    while i < list.len()
        invariant
            i <= list.len(),
            copy@ == list@.take(i as int),
        decreases list.len() - i,
    {
        copy.push(list[i].clone());
        i += 1;
    }
    copy
}

pub struct Firewall {
    config: AppConfig,
    rule_engine: RuleEngine,
    logger: Logger,
    blocker: Blocker,
    geo_firewall: SimpleGeoFirewall,
    running: bool,
}

impl View for Firewall {
    type V = FirewallState;

    closed spec fn view(&self) -> FirewallState {
        FirewallState {
            rules: self.rule_engine@,
            default_action: self.config.general.default_action,
            interface: self.config.general.interface@,
            blocker: self.blocker@,
            geo: self.geo_firewall@,
            running: self.running,
        }
    }
}

impl Firewall {
    /// The configuration that the firewall holds: the one it was made with,
    /// but for the rules, which are those in force.
    pub closed spec fn spec_config(&self) -> AppConfig {
        self.config
    }

    pub fn new(config: AppConfig) -> (r: Result<Firewall, FirewallError>)
        ensures
            r matches Ok(firewall) && firewall@ == FirewallState::initial(config)
                && firewall.spec_config() == config && firewall@.blocker.wf(),
    {
        let rule_engine = RuleEngine::new(duplicate_rules(&config.rules));
        let logger = Logger::new();
        let blocker = Blocker::new(&config.blocklist);
        let geo_firewall = SimpleGeoFirewall::new(
            duplicate_texts(&config.geo_firewall.blocked_countries),
            config.geo_firewall.enabled,
        );
        Ok(Firewall { config, rule_engine, logger, blocker, geo_firewall, running: false })
    }

    /// Marks the firewall as running. A firewall that runs already refuses.
    pub fn run(&mut self) -> (r: Result<(), FirewallError>)
        ensures
            r == if old(self)@.running {
                Err::<(), FirewallError>(FirewallError::AlreadyRunning)
            } else {
                Ok(())
            },
            final(self)@ == (FirewallState { running: true, ..old(self)@ }),
            final(self).spec_config() == old(self).spec_config(),
    {
        if self.running {
            return Err(FirewallError::AlreadyRunning);
        }
        self.running = true;
        Ok(())
    }

    /// Marks the firewall as stopped. A firewall that does not run refuses.
    pub fn stop(&mut self) -> (r: Result<(), FirewallError>)
        ensures
            r == if old(self)@.running {
                Ok::<(), FirewallError>(())
            } else {
                Err(FirewallError::NotRunning)
            },
            final(self)@ == (FirewallState { running: false, ..old(self)@ }),
            final(self).spec_config() == old(self).spec_config(),
    {
        if !self.running {
            return Err(FirewallError::NotRunning);
        }
        self.running = false;
        Ok(())
    }

    pub fn is_running(&self) -> (r: bool)
        ensures
            r == self@.running,
    {
        self.running
    }

    /// The interface to capture on: the first one that the configuration
    /// asks for.
    pub fn select_interface(&self, interfaces: &Vec<InterfaceInfo>) -> (r: Result<
        usize,
        FirewallError,
    >)
        ensures
            match r {
                Ok(i) => is_first_suitable(self@.interface, interfaces@, i as int),
                Err(e) => e == FirewallError::InterfaceUnavailable && forall|j: int|
                    0 <= j < interfaces@.len() ==> !interface_suits(
                        self@.interface,
                        #[trigger] interfaces@[j],
                    ),
            },
    {
        let wanted = self.config.general.interface.as_str();
        let any_usable = wanted.to_owned() == "default".to_owned();
        let mut i: usize = 0;
        while i < interfaces.len()
            invariant
                i <= interfaces.len(),
                wanted@ == self@.interface,
                any_usable == (wanted@ == "default"@),
                forall|j: int|
                    0 <= j < i ==> !interface_suits(self@.interface, #[trigger] interfaces@[j]),
            decreases interfaces.len() - i,
        {
            let interface = &interfaces[i];
            let suits = if any_usable {
                interface.is_up && !interface.is_loopback && interface.has_addresses
            } else {
                interface.name == wanted.to_owned()
            };
            if suits {
                return Ok(i);
            }
            i += 1;
        }
        Err(FirewallError::InterfaceUnavailable)
    }

    /// Which way a frame travels, by its hardware addresses.
    pub fn infer_direction(
        local: Option<MacAddress>,
        source: MacAddress,
        destination: MacAddress,
    ) -> (direction: Direction)
        ensures
            direction == spec_infer_direction(local, source, destination),
    {
        match local {
            Some(mac) => if source == mac {
                Direction::Outbound
            } else if destination == mac {
                Direction::Inbound
            } else {
                Direction::Any
            },
            None => Direction::Any,
        }
    }

    /// The endpoint on the far side of a flow, where the direction tells.
    pub fn remote_address(src_ip: IpAddress, dst_ip: IpAddress, direction: Direction) -> (r:
        Option<IpAddress>)
        ensures
            r == remote_address(src_ip, dst_ip, direction),
    {
        match direction {
            Direction::Inbound => Some(src_ip),
            Direction::Outbound => Some(dst_ip),
            Direction::Any => None,
        }
    }

    /// Screens a flow's endpoints: the verdict, where the geo layer or the
    /// blocklist stops the flow.
    pub fn screen(
        src_ip: IpAddress,
        dst_ip: IpAddress,
        direction: Direction,
        size: usize,
        logger: &Logger,
        blocker: &Blocker,
        geo_firewall: &SimpleGeoFirewall,
        now: u128,
    ) -> (r: Option<Verdict>)
        ensures
            r == spec_screen_verdict(
                geo_firewall@,
                blocker@,
                src_ip,
                dst_ip,
                direction,
                size,
                now,
            ),
    {
        let geo_blocks = match Self::remote_address(src_ip, dst_ip, direction) {
            Some(remote) => !blocker.is_whitelisted(&remote) && geo_firewall.should_block(remote),
            None => false,
        };
        let stage = if geo_blocks {
            Some(Stage::Geo)
        } else if blocker.is_blocked_at(&src_ip, now) || blocker.is_blocked_at(&dst_ip, now) {
            Some(Stage::Blocklist)
        } else {
            None
        };
        match stage {
            Some(stage) => Some(
                Verdict {
                    action: Action::Block,
                    stage,
                    log: logger.log_blocked_packet(
                        src_ip,
                        dst_ip,
                        None,
                        None,
                        Protocol::Any,
                        direction,
                        size,
                    ),
                },
            ),
            None => None,
        }
    }

    /// What the rules and the default action make of a packet.
    pub fn decide(rules: &RuleEngine, default_action: Action, packet: &Packet) -> (r: (
        Action,
        Stage,
    ))
        ensures
            r == spec_decide(rules@, default_action, *packet),
    {
        match rules.first_match(packet) {
            Some(i) => (rules.rules()[i].action, Stage::Rule(i)),
            None => (default_action, Stage::Default),
        }
    }

    /// Decides a packet that passed the screening: by the rules, or else by
    /// the default action. A blocked packet is recorded as an attempt of its
    /// source.
    pub fn handle_packet(
        packet: &Packet,
        config: &AppConfig,
        rules: &RuleEngine,
        logger: &Logger,
        blocker: &mut Blocker,
        now: u128,
    ) -> (verdict: Verdict)
        ensures
            (verdict, final(blocker)@) == spec_handle(
                rules@,
                config.general.default_action,
                old(blocker)@,
                *packet,
                now,
            ),
            old(blocker)@.wf() ==> final(blocker)@.wf(),
    {
        let (action, stage) = Self::decide(rules, config.general.default_action, packet);
        let log = match action {
            Action::Allow => logger.log_allowed_packet(
                packet.src_ip,
                packet.dst_ip,
                packet.src_port,
                packet.dst_port,
                packet.protocol,
                packet.direction,
                packet.size,
            ),
            Action::Block => {
                let record = logger.log_blocked_packet(
                    packet.src_ip,
                    packet.dst_ip,
                    packet.src_port,
                    packet.dst_port,
                    packet.protocol,
                    packet.direction,
                    packet.size,
                );
                blocker.record_connection_attempt_at(packet.src_ip, now);
                record
            },
            Action::Log => logger.log_packet(
                packet.src_ip,
                packet.dst_ip,
                packet.src_port,
                packet.dst_port,
                packet.protocol,
                packet.direction,
                packet.size,
            ),
        };
        Verdict { action, stage, log }
    }

    /// Decides an IPv4 frame.
    pub fn process_ipv4_packet(
        frame: &Ipv4Frame,
        direction: Direction,
        config: &AppConfig,
        rules: &RuleEngine,
        logger: &Logger,
        blocker: &mut Blocker,
        geo_firewall: &SimpleGeoFirewall,
        now: u128,
    ) -> (r: Option<Verdict>)
        ensures
            (r, final(blocker)@) == spec_process_ipv4(
                rules@,
                config.general.default_action,
                geo_firewall@,
                old(blocker)@,
                *frame,
                direction,
                now,
            ),
            old(blocker)@.wf() ==> final(blocker)@.wf(),
    {
        let src_ip = IpAddress::V4(frame.source);
        let dst_ip = IpAddress::V4(frame.destination);
        let size = frame.payload_len;
        if let Some(verdict) = Self::screen(
            src_ip,
            dst_ip,
            direction,
            size,
            logger,
            blocker,
            geo_firewall,
            now,
        ) {
            return Some(verdict);
        }
        match frame.transport {
            Some(Transport::Tcp { src_port, dst_port }) => {
                let packet = Packet::new(
                    src_ip,
                    dst_ip,
                    Some(src_port),
                    Some(dst_port),
                    Protocol::TCP,
                    direction,
                    size,
                    frame.timestamp,
                );
                Some(Self::handle_packet(&packet, config, rules, logger, blocker, now))
            },
            Some(Transport::Udp { src_port, dst_port }) => {
                let packet = Packet::new(
                    src_ip,
                    dst_ip,
                    Some(src_port),
                    Some(dst_port),
                    Protocol::UDP,
                    direction,
                    size,
                    frame.timestamp,
                );
                Some(Self::handle_packet(&packet, config, rules, logger, blocker, now))
            },
            Some(Transport::Icmp) => {
                let packet = Packet::new(
                    src_ip,
                    dst_ip,
                    None,
                    None,
                    Protocol::ICMP,
                    direction,
                    size,
                    frame.timestamp,
                );
                Some(Self::handle_packet(&packet, config, rules, logger, blocker, now))
            },
            Some(Transport::Other) => {
                let packet = Packet::new(
                    src_ip,
                    dst_ip,
                    None,
                    None,
                    Protocol::Any,
                    direction,
                    size,
                    frame.timestamp,
                );
                Some(Self::handle_packet(&packet, config, rules, logger, blocker, now))
            },
            None => None,
        }
    }

    /// Decides an IPv6 frame.
    pub fn process_ipv6_packet(
        frame: &Ipv6Frame,
        direction: Direction,
        config: &AppConfig,
        rules: &RuleEngine,
        logger: &Logger,
        blocker: &mut Blocker,
        geo_firewall: &SimpleGeoFirewall,
        now: u128,
    ) -> (verdict: Verdict)
        ensures
            (verdict, final(blocker)@) == spec_process_ipv6(
                rules@,
                config.general.default_action,
                geo_firewall@,
                old(blocker)@,
                *frame,
                direction,
                now,
            ),
            old(blocker)@.wf() ==> final(blocker)@.wf(),
    {
        let src_ip = IpAddress::V6(frame.source);
        let dst_ip = IpAddress::V6(frame.destination);
        let size = frame.payload_len;
        if let Some(verdict) = Self::screen(
            src_ip,
            dst_ip,
            direction,
            size,
            logger,
            blocker,
            geo_firewall,
            now,
        ) {
            return verdict;
        }
        let packet = Packet::new(
            src_ip,
            dst_ip,
            None,
            None,
            Protocol::Any,
            direction,
            size,
            frame.timestamp,
        );
        Self::handle_packet(&packet, config, rules, logger, blocker, now)
    }

    /// Decides a packet at `now`, by the firewall's own layers.
    pub fn evaluate(&mut self, packet: &Packet, now: u128) -> (verdict: Verdict)
        ensures
            (verdict, final(self)@) == old(self)@.evaluate(*packet, now),
            final(self).spec_config() == old(self).spec_config(),
            old(self)@.blocker.wf() ==> final(self)@.blocker.wf(),
    {
        if let Some(verdict) = Self::screen(
            packet.src_ip,
            packet.dst_ip,
            packet.direction,
            packet.size,
            &self.logger,
            &self.blocker,
            &self.geo_firewall,
            now,
        ) {
            return verdict;
        }
        Self::handle_packet(
            packet,
            &self.config,
            &self.rule_engine,
            &self.logger,
            &mut self.blocker,
            now,
        )
    }

    /// Decides a link-layer frame at `now`, by the firewall's own layers.
    pub fn process_frame(
        &mut self,
        local_mac: Option<MacAddress>,
        frame: &EthernetFrame,
        now: u128,
    ) -> (r: Option<Verdict>)
        ensures
            (r, final(self)@.blocker) == spec_process_frame(
                old(self)@.rules,
                old(self)@.default_action,
                old(self)@.geo,
                old(self)@.blocker,
                local_mac,
                *frame,
                now,
            ),
            final(self)@ == old(self)@.with_blocker(final(self)@.blocker),
            final(self).spec_config() == old(self).spec_config(),
            old(self)@.blocker.wf() ==> final(self)@.blocker.wf(),
    {
        let direction = Self::infer_direction(local_mac, frame.source, frame.destination);
        match frame.payload {
            FramePayload::Ipv4(ipv4) => Self::process_ipv4_packet(
                &ipv4,
                direction,
                &self.config,
                &self.rule_engine,
                &self.logger,
                &mut self.blocker,
                &self.geo_firewall,
                now,
            ),
            FramePayload::Ipv6(ipv6) => Some(
                Self::process_ipv6_packet(
                    &ipv6,
                    direction,
                    &self.config,
                    &self.rule_engine,
                    &self.logger,
                    &mut self.blocker,
                    &self.geo_firewall,
                    now,
                ),
            ),
            FramePayload::Other => None,
        }
    }

    /// The time by the blocker's clock.
    pub fn now(&self) -> u128 {
        self.blocker.now()
    }

    /// Drops the blocks that hold no longer at the time that the blocker's
    /// clock gives.
    pub fn cleanup_expired_blocks(&mut self)
        ensures
            exists|now: u128|
                final(self)@ == old(self)@.with_blocker(#[trigger] old(self)@.blocker.sweep(now)),
            final(self).spec_config() == old(self).spec_config(),
            old(self)@.blocker.wf() ==> final(self)@.blocker.wf(),
    {
        let now = self.blocker.now();
        self.blocker.cleanup_expired_blocks_at(now);
        assert(final(self)@ == old(self)@.with_blocker(old(self)@.blocker.sweep(now)));
    }

    /// Replaces the rule set as a whole.
    pub fn update_rules(&mut self, rules: Vec<FirewallRule>)
        ensures
            final(self)@ == (FirewallState { rules: rules@, ..old(self)@ }),
            final(self).spec_config().rules@ == rules@,
            final(self).spec_config().general == old(self).spec_config().general,
            final(self).spec_config().blocklist == old(self).spec_config().blocklist,
            final(self).spec_config().geo_firewall == old(self).spec_config().geo_firewall,
    {
        self.config.rules = duplicate_rules(&rules);
        self.rule_engine = RuleEngine::new(rules);
    }

    /// Blocks an address from the time that the blocker's clock gives.
    pub fn add_to_blacklist(&mut self, ip: IpAddress, duration: Option<u64>) -> (r: Result<
        (),
        FirewallError,
    >)
        ensures
            r == old(self)@.blocker.block_result(ip),
            exists|now: u128|
                final(self)@ == old(self)@.with_blocker(
                    #[trigger] old(self)@.blocker.block(ip, duration, now),
                ),
            final(self).spec_config() == old(self).spec_config(),
            old(self)@.blocker.wf() ==> final(self)@.blocker.wf(),
    {
        let now = self.blocker.now();
        let r = self.blocker.block_ip_at(ip, duration, now);
        assert(final(self)@ == old(self)@.with_blocker(
            old(self)@.blocker.block(ip, duration, now),
        ));
        r
    }

    /// Lifts the block of an address.
    pub fn remove_from_blacklist(&mut self, ip: IpAddress) -> (r: Result<(), FirewallError>)
        ensures
            r == old(self)@.blocker.unblock_result(ip),
            final(self)@ == old(self)@.with_blocker(old(self)@.blocker.unblock(ip)),
            final(self).spec_config() == old(self).spec_config(),
            old(self)@.blocker.wf() ==> final(self)@.blocker.wf(),
    {
        self.blocker.unblock_ip(ip)
    }

    /// Has the geo layer block one more tag.
    pub fn block_country(&mut self, country_code: &str)
        ensures
            final(self)@ == (FirewallState {
                geo: old(self)@.geo.with_country(uppercased(country_code@)),
                ..old(self)@
            }),
            final(self).spec_config() == old(self).spec_config(),
    {
        self.geo_firewall.block_country(country_code);
    }

    /// Has the geo layer block the high-risk baseline, and nothing else.
    pub fn enable_threat_protection(&mut self)
        ensures
            final(self)@ == (FirewallState {
                geo: old(self)@.geo.with_threat_baseline(),
                ..old(self)@
            }),
            final(self).spec_config() == old(self).spec_config(),
    {
        self.geo_firewall.enable_threat_protection();
    }

    /// The configuration that the firewall was made with, with the rules
    /// that are in force now.
    pub fn config(&self) -> (r: &AppConfig)
        ensures
            *r == self.spec_config(),
    {
        &self.config
    }

    pub fn rule_engine(&self) -> (r: &RuleEngine)
        ensures
            r@ == self@.rules,
    {
        &self.rule_engine
    }

    pub fn logger(&self) -> &Logger {
        &self.logger
    }

    pub fn blocker(&self) -> (r: &Blocker)
        ensures
            r@ == self@.blocker,
    {
        &self.blocker
    }

    pub fn geo_firewall(&self) -> (r: &SimpleGeoFirewall)
        ensures
            r@ == self@.geo,
    {
        &self.geo_firewall
    }
}

} // verus!
