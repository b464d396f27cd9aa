//! The firewall's configuration: the rule set, the default action, and the
//! settings of the blocklist and of the geo layer.

use vstd::prelude::*;

verus! {

/// What the firewall does with a packet.
#[derive(Clone, Copy, Debug, PartialEq, Eq, Structural)]
pub enum Action {
    Allow,
    Block,
    Log,
}

/// Which way a packet travels, seen from this host.
#[derive(Clone, Copy, Debug, PartialEq, Eq, Structural)]
pub enum Direction {
    Outbound,
    Inbound,
    Any,
}

/// The transport protocol of a packet, or of the packets a rule is about.
#[derive(Clone, Copy, Debug, PartialEq, Eq, Structural)]
pub enum Protocol {
    TCP,
    UDP,
    ICMP,
    Any,
}

/// One rule. A field that is `None`, and a direction or protocol of `Any`,
/// constrains nothing.
#[derive(Clone, Debug)]
pub struct FirewallRule {
    pub name: String,
    pub action: Action,
    pub direction: Direction,
    pub protocol: Protocol,
    /// A single address or a CIDR network, in text.
    pub src_ip: Option<String>,
    /// A single address or a CIDR network, in text.
    pub dst_ip: Option<String>,
    pub src_port: Option<u16>,
    pub dst_port: Option<u16>,
    pub enabled: bool,
}

#[derive(Clone, Debug)]
pub struct GeneralConfig {
    /// The capture interface's name, or "default" for the first usable one.
    pub interface: String,
    /// The action for a packet that no rule matches.
    pub default_action: Action,
}

#[derive(Clone, Debug)]
pub struct BlocklistConfig {
    pub enabled: bool,
    /// Number of blocked attempts at which an address is blocked by itself.
    pub auto_block_threshold: u32,
    /// How long such a block lasts, in seconds.
    pub block_duration: u64,
    /// Addresses that are never blocked, in text.
    pub whitelist: Vec<String>,
}

#[derive(Clone, Debug)]
pub struct GeoFirewallConfig {
    pub enabled: bool,
    pub blocked_countries: Vec<String>,
}

#[derive(Clone, Debug)]
pub struct AppConfig {
    pub general: GeneralConfig,
    pub rules: Vec<FirewallRule>,
    pub blocklist: BlocklistConfig,
    pub geo_firewall: GeoFirewallConfig,
}

fn copy_text(text: &Option<String>) -> (r: Option<String>)
    ensures
        r == *text,
{
    match text {
        Some(s) => Some(s.clone()),
        None => None,
    }
}

impl FirewallRule {
    /// An enabled rule that allows outbound traffic of one protocol to one
    /// destination port, whatever the addresses and the source port.
    pub open spec fn spec_allows_outbound_to(
        &self,
        name: Seq<char>,
        protocol: Protocol,
        port: u16,
    ) -> bool {
        &&& self.name@ == name
        &&& self.action == Action::Allow
        &&& self.direction == Direction::Outbound
        &&& self.protocol == protocol
        &&& self.src_ip is None
        &&& self.dst_ip is None
        &&& self.src_port is None
        &&& self.dst_port == Some(port)
        &&& self.enabled
    }

    pub fn allow_outbound_to(name: &str, protocol: Protocol, port: u16) -> (r: FirewallRule)
        ensures
            r.spec_allows_outbound_to(name@, protocol, port),
    {
        FirewallRule {
            name: name.to_owned(),
            action: Action::Allow,
            direction: Direction::Outbound,
            protocol,
            src_ip: None,
            dst_ip: None,
            src_port: None,
            dst_port: Some(port),
            enabled: true,
        }
    }

    /// A copy that is equal to the rule, field for field.
    pub fn duplicate(&self) -> (r: FirewallRule)
        ensures
            r == *self,
    {
        FirewallRule {
            name: self.name.clone(),
            action: self.action,
            direction: self.direction,
            protocol: self.protocol,
            src_ip: copy_text(&self.src_ip),
            dst_ip: copy_text(&self.dst_ip),
            src_port: self.src_port,
            dst_port: self.dst_port,
            enabled: self.enabled,
        }
    }
}

/// A copy of a rule sequence, equal to it rule for rule.
pub fn duplicate_rules(rules: &Vec<FirewallRule>) -> (r: Vec<FirewallRule>)
    ensures
        r@ == rules@,
{
    let mut copy: Vec<FirewallRule> = Vec::new();
    let mut i: usize = 0;
    while i < rules.len()
        invariant
            i <= rules.len(),
            copy@ == rules@.take(i as int),
        decreases rules.len() - i,
    {
        copy.push(rules[i].duplicate());
        i += 1;
    }
    copy
}

impl AppConfig {
    /// The configuration of a fresh installation: everything is blocked but
    /// outbound HTTP, HTTPS and DNS; an address is blocked for an hour after
    /// five blocked attempts; the loopback addresses are exempt; the geo layer
    /// is off.
    pub open spec fn spec_is_default(&self) -> bool {
        &&& self.general.interface@ == "default"@
        &&& self.general.default_action == Action::Block
        &&& self.rules@.len() == 3
        &&& self.rules@[0].spec_allows_outbound_to("Allow HTTP"@, Protocol::TCP, 80)
        &&& self.rules@[1].spec_allows_outbound_to("Allow HTTPS"@, Protocol::TCP, 443)
        &&& self.rules@[2].spec_allows_outbound_to("Allow DNS"@, Protocol::UDP, 53)
        &&& self.blocklist.enabled
        &&& self.blocklist.auto_block_threshold == 5
        &&& self.blocklist.block_duration == 3600
        &&& self.blocklist.whitelist@.len() == 2
        &&& self.blocklist.whitelist@[0]@ == "127.0.0.1"@
        &&& self.blocklist.whitelist@[1]@ == "::1"@
        &&& !self.geo_firewall.enabled
        &&& self.geo_firewall.blocked_countries@.len() == 0
    }

    pub fn create_default() -> (config: AppConfig)
        ensures
            config.spec_is_default(),
    {
        let mut rules: Vec<FirewallRule> = Vec::new();
        rules.push(FirewallRule::allow_outbound_to("Allow HTTP", Protocol::TCP, 80));
        rules.push(FirewallRule::allow_outbound_to("Allow HTTPS", Protocol::TCP, 443));
        rules.push(FirewallRule::allow_outbound_to("Allow DNS", Protocol::UDP, 53));
        let mut whitelist: Vec<String> = Vec::new();
        whitelist.push("127.0.0.1".to_owned());
        whitelist.push("::1".to_owned());
        AppConfig {
            general: GeneralConfig {
                interface: "default".to_owned(),
                default_action: Action::Block,
            },
            rules,
            blocklist: BlocklistConfig {
                enabled: true,
                auto_block_threshold: 5,
                block_duration: 3600,
                whitelist,
            },
            geo_firewall: GeoFirewallConfig { enabled: false, blocked_countries: Vec::new() },
        }
    }
}

} // verus!
