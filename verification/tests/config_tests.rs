use rustguard::address::IpAddress;
use rustguard::config::{
    duplicate_rules, Action, AppConfig, Direction, FirewallRule, Protocol,
};
use rustguard::error::FirewallError;
use rustguard::logger::{LogKind, Logger};
use rustguard::packet::Packet;

#[test]
fn default_config_values() {
    let config = AppConfig::create_default();
    assert_eq!(config.general.interface, "default");
    assert_eq!(config.general.default_action, Action::Block);
    assert_eq!(config.rules.len(), 3);
    let names: Vec<&str> = config.rules.iter().map(|r| r.name.as_str()).collect();
    assert_eq!(names, vec!["Allow HTTP", "Allow HTTPS", "Allow DNS"]);
    let ports: Vec<Option<u16>> = config.rules.iter().map(|r| r.dst_port).collect();
    assert_eq!(ports, vec![Some(80), Some(443), Some(53)]);
    let protocols: Vec<Protocol> = config.rules.iter().map(|r| r.protocol).collect();
    assert_eq!(protocols, vec![Protocol::TCP, Protocol::TCP, Protocol::UDP]);
    for rule in &config.rules {
        assert_eq!(rule.action, Action::Allow);
        assert_eq!(rule.direction, Direction::Outbound);
        assert_eq!(rule.src_ip, None);
        assert_eq!(rule.dst_ip, None);
        assert_eq!(rule.src_port, None);
        assert!(rule.enabled);
    }
    assert!(config.blocklist.enabled);
    assert_eq!(config.blocklist.auto_block_threshold, 5);
    assert_eq!(config.blocklist.block_duration, 3600);
    assert_eq!(config.blocklist.whitelist, vec!["127.0.0.1".to_string(), "::1".to_string()]);
    assert!(!config.geo_firewall.enabled);
    assert!(config.geo_firewall.blocked_countries.is_empty());
}

#[test]
fn allow_outbound_to_builds_an_enabled_rule() {
    let rule = FirewallRule::allow_outbound_to("x", Protocol::UDP, 123);
    assert_eq!(rule.name, "x");
    assert_eq!(rule.action, Action::Allow);
    assert_eq!(rule.direction, Direction::Outbound);
    assert_eq!(rule.protocol, Protocol::UDP);
    assert_eq!(rule.dst_port, Some(123));
    assert_eq!(rule.src_port, None);
    assert!(rule.enabled);
}

#[test]
fn duplicate_copies_every_field() {
    let rule = FirewallRule {
        name: "n".to_string(),
        action: Action::Log,
        direction: Direction::Inbound,
        protocol: Protocol::ICMP,
        src_ip: Some("10.0.0.0/8".to_string()),
        dst_ip: Some("::1".to_string()),
        src_port: Some(1),
        dst_port: Some(2),
        enabled: false,
    };
    let copy = rule.duplicate();
    assert_eq!(format!("{:?}", copy), format!("{:?}", rule));
    let rules = vec![rule, FirewallRule::allow_outbound_to("y", Protocol::TCP, 1)];
    let copies = duplicate_rules(&rules);
    assert_eq!(format!("{:?}", copies), format!("{:?}", rules));
    assert!(duplicate_rules(&Vec::new()).is_empty());
}

#[test]
fn packet_directions() {
    let mut p = Packet::new(
        IpAddress::V4(1),
        IpAddress::V4(2),
        Some(3),
        None,
        Protocol::TCP,
        Direction::Outbound,
        4,
        5,
    );
    assert_eq!(p.src_ip, IpAddress::V4(1));
    assert_eq!(p.dst_ip, IpAddress::V4(2));
    assert_eq!(p.src_port, Some(3));
    assert_eq!(p.dst_port, None);
    assert_eq!(p.size, 4);
    assert_eq!(p.timestamp, 5);
    assert!(p.is_outbound());
    assert!(!p.is_inbound());
    p.direction = Direction::Inbound;
    assert!(!p.is_outbound());
    assert!(p.is_inbound());
    p.direction = Direction::Any;
    assert!(!p.is_outbound());
    assert!(!p.is_inbound());
}

#[test]
fn error_messages() {
    assert_eq!(FirewallError::AlreadyRunning.message(), "Firewall already running");
    assert_eq!(FirewallError::NotRunning.message(), "Firewall not running");
    assert_eq!(FirewallError::WhitelistViolation.message(), "Cannot block whitelisted IP");
    assert_eq!(FirewallError::NotBlocked.message(), "IP not in blocklist");
    assert_eq!(
        FirewallError::InterfaceUnavailable.message(),
        "No suitable network interface found"
    );
}

#[test]
fn logger_entries_carry_their_kind_and_fields() {
    let logger = Logger::new();
    let a = IpAddress::V4(1);
    let b = IpAddress::V6(2);
    let allowed =
        logger.log_allowed_packet(a, b, Some(1), None, Protocol::TCP, Direction::Inbound, 7);
    assert_eq!(allowed.kind, LogKind::Allowed);
    assert_eq!(allowed.src_ip, a);
    assert_eq!(allowed.dst_ip, b);
    assert_eq!(allowed.src_port, Some(1));
    assert_eq!(allowed.dst_port, None);
    assert_eq!(allowed.protocol, Protocol::TCP);
    assert_eq!(allowed.direction, Direction::Inbound);
    assert_eq!(allowed.size, 7);
    let blocked =
        logger.log_blocked_packet(a, b, None, Some(2), Protocol::UDP, Direction::Outbound, 8);
    assert_eq!(blocked.kind, LogKind::Blocked);
    assert_eq!(blocked.dst_port, Some(2));
    assert_eq!(blocked.size, 8);
    let logged = logger.log_packet(b, a, None, None, Protocol::Any, Direction::Any, 9);
    assert_eq!(logged.kind, LogKind::Logged);
    assert_eq!(logged.src_ip, b);
    assert_eq!(logged.dst_ip, a);
    let update = logger.log_blocklist_update(&a, "added");
    assert_eq!(update.ip, a);
    assert_eq!(update.action, "added");
}
