//! The rule engine: an ordered rule set, of which the first enabled rule that
//! matches a packet decides.

use crate::address::{parse_network, parsed_network, IpAddress};
use crate::config::{Action, Direction, FirewallRule, Protocol};
use crate::packet::Packet;
use vstd::prelude::*;

verus! {

/// Whether an address satisfies a specifier: it lies in the network that the
/// specifier denotes. A specifier that does not parse is satisfied by nothing.
pub open spec fn spec_ip_matches(specifier: Seq<char>, ip: IpAddress) -> bool {
    match parsed_network(specifier) {
        Some(net) => net.spec_contains(ip),
        None => false,
    }
}

/// Whether an optional address constraint holds of an address.
pub open spec fn spec_address_allowed(constraint: Option<String>, ip: IpAddress) -> bool {
    match constraint {
        Some(specifier) => spec_ip_matches(specifier@, ip),
        None => true,
    }
}

/// Whether an optional port constraint holds of a packet's port: the packet
/// must carry that very port.
pub open spec fn spec_port_allowed(constraint: Option<u16>, port: Option<u16>) -> bool {
    match constraint {
        Some(wanted) => port == Some(wanted),
        None => true,
    }
}

/// The predicate of a rule: every field that the rule specifies holds of the
/// packet.
pub open spec fn spec_rule_matches(rule: FirewallRule, packet: Packet) -> bool {
    &&& rule.direction == Direction::Any || rule.direction == packet.direction
    &&& rule.protocol == Protocol::Any || rule.protocol == packet.protocol
    &&& spec_address_allowed(rule.src_ip, packet.src_ip)
    &&& spec_address_allowed(rule.dst_ip, packet.dst_ip)
    &&& spec_port_allowed(rule.src_port, packet.src_port)
    &&& spec_port_allowed(rule.dst_port, packet.dst_port)
}

/// A rule applies to a packet when it is enabled and its predicate matches.
pub open spec fn spec_rule_applies(rule: FirewallRule, packet: Packet) -> bool {
    rule.enabled && spec_rule_matches(rule, packet)
}

/// Rule `i` applies to the packet and no earlier rule does.
pub open spec fn is_first_match(rules: Seq<FirewallRule>, packet: Packet, i: int) -> bool {
    &&& 0 <= i < rules.len()
    &&& spec_rule_applies(rules[i], packet)
    &&& forall|j: int| 0 <= j < i ==> !spec_rule_applies(#[trigger] rules[j], packet)
}

/// The index of the rule that decides a packet, if any rule applies.
pub open spec fn spec_first_match(rules: Seq<FirewallRule>, packet: Packet) -> Option<int> {
    if exists|i: int| is_first_match(rules, packet, i) {
        Some(choose|i: int| is_first_match(rules, packet, i))
    } else {
        None
    }
}

/// The action of the first rule that applies, if any does.
pub open spec fn spec_apply_rules(rules: Seq<FirewallRule>, packet: Packet) -> Option<Action> {
    match spec_first_match(rules, packet) {
        Some(i) => Some(rules[i].action),
        None => None,
    }
}

/// Whether a rule carries a defect: an address specifier that denotes
/// nothing. Such a rule matches no packet.
pub open spec fn spec_has_invalid_specifier(rule: FirewallRule) -> bool {
    ||| rule.src_ip matches Some(specifier) && parsed_network(specifier@) is None
    ||| rule.dst_ip matches Some(specifier) && parsed_network(specifier@) is None
}

/// A rule with a defect matches no packet.
pub proof fn lemma_defective_rule_never_matches(rule: FirewallRule, packet: Packet)
    requires
        spec_has_invalid_specifier(rule),
    ensures
        !spec_rule_matches(rule, packet),
        !spec_rule_applies(rule, packet),
{
}

/// There is at most one first match.
pub proof fn lemma_first_match_is_unique(
    rules: Seq<FirewallRule>,
    packet: Packet,
    i: int,
    k: int,
)
    requires
        is_first_match(rules, packet, i),
        is_first_match(rules, packet, k),
    ensures
        i == k,
{
    if i < k {
        assert(!spec_rule_applies(rules[i], packet));
    } else if k < i {
        assert(!spec_rule_applies(rules[k], packet));
    }
}

/// A rule that applies, with no rule before it that does, decides.
pub proof fn lemma_first_match_decides(rules: Seq<FirewallRule>, packet: Packet, i: int)
    requires
        is_first_match(rules, packet, i),
    ensures
        spec_first_match(rules, packet) == Some(i),
        spec_apply_rules(rules, packet) == Some(rules[i].action),
{
    let k = choose|k: int| is_first_match(rules, packet, k);
    lemma_first_match_is_unique(rules, packet, i, k);
}

/// Where no rule applies, nothing is decided.
pub proof fn lemma_no_match_decides_nothing(rules: Seq<FirewallRule>, packet: Packet)
    requires
        forall|j: int| 0 <= j < rules.len() ==> !spec_rule_applies(#[trigger] rules[j], packet),
    ensures
        spec_first_match(rules, packet) is None,
        spec_apply_rules(rules, packet) is None,
{
}

/// Where some rule applies, there is a first one, at or before it.
pub proof fn lemma_applicable_rule_has_first_match(
    rules: Seq<FirewallRule>,
    packet: Packet,
    i: int,
) -> (k: int)
    requires
        0 <= i < rules.len(),
        spec_rule_applies(rules[i], packet),
    ensures
        k <= i,
        is_first_match(rules, packet, k),
    decreases i,
{
    if exists|j: int| 0 <= j < i && spec_rule_applies(#[trigger] rules[j], packet) {
        let j = choose|j: int| 0 <= j < i && spec_rule_applies(#[trigger] rules[j], packet);
        lemma_applicable_rule_has_first_match(rules, packet, j)
    } else {
        i
    }
}

/// Matching goes by order. Of two rules that both apply to a packet, the later
/// one never decides: the action returned is that of a rule at or before the
/// earlier one, and of the earlier one itself where nothing before it applies.
pub proof fn lemma_earlier_rule_wins(rules: Seq<FirewallRule>, packet: Packet, i: int, j: int)
    requires
        0 <= i < j < rules.len(),
        spec_rule_applies(rules[i], packet),
        spec_rule_applies(rules[j], packet),
    ensures
        spec_first_match(rules, packet) matches Some(k) && k <= i,
        (forall|h: int| 0 <= h < i ==> !spec_rule_applies(#[trigger] rules[h], packet))
            ==> spec_apply_rules(rules, packet) == Some(rules[i].action),
{
    let k = lemma_applicable_rule_has_first_match(rules, packet, i);
    lemma_first_match_decides(rules, packet, k);
    if forall|h: int| 0 <= h < i ==> !spec_rule_applies(#[trigger] rules[h], packet) {
        lemma_first_match_decides(rules, packet, i);
    }
}

/// The rule that decides is enabled: a disabled rule decides nothing, at
/// whatever place it stands.
pub proof fn lemma_deciding_rule_is_enabled(rules: Seq<FirewallRule>, packet: Packet)
    ensures
        spec_first_match(rules, packet) matches Some(i) ==> 0 <= i < rules.len()
            && rules[i].enabled && spec_rule_matches(rules[i], packet),
{
}

/// A disabled rule can be taken out of the rule set, at whatever place it
/// stands, without changing what is decided for any packet.
pub proof fn lemma_disabled_rule_is_skipped(rules: Seq<FirewallRule>, packet: Packet, k: int)
    requires
        0 <= k < rules.len(),
        !rules[k].enabled,
    ensures
        spec_apply_rules(rules.remove(k), packet) == spec_apply_rules(rules, packet),
{
    let rest = rules.remove(k);
    assert forall|j: int| 0 <= j < rest.len() implies #[trigger] rest[j] == rules[if j < k {
        j
    } else {
        j + 1
    }] by {}
    if exists|i: int| is_first_match(rules, packet, i) {
        let i = choose|i: int| is_first_match(rules, packet, i);
        assert(i != k);
        let i2 = if i < k {
            i
        } else {
            i - 1
        };
        assert(rest[i2] == rules[i]);
        assert forall|j: int| 0 <= j < i2 implies !spec_rule_applies(
            #[trigger] rest[j],
            packet,
        ) by {
            let h = if j < k {
                j
            } else {
                j + 1
            };
            assert(rest[j] == rules[h]);
            assert(!spec_rule_applies(rules[h], packet));
        }
        assert(is_first_match(rest, packet, i2));
        lemma_first_match_decides(rest, packet, i2);
        lemma_first_match_decides(rules, packet, i);
    } else {
        assert forall|j: int| 0 <= j < rest.len() implies !spec_rule_applies(
            #[trigger] rest[j],
            packet,
        ) by {
            let h = if j < k {
                j
            } else {
                j + 1
            };
            assert(rest[j] == rules[h]);
            if spec_rule_applies(rules[h], packet) {
                let f = lemma_applicable_rule_has_first_match(rules, packet, h);
                assert(is_first_match(rules, packet, f));
            }
        }
        lemma_no_match_decides_nothing(rest, packet);
    }
}

#[derive(Clone, Debug)]
pub struct RuleEngine {
    rules: Vec<FirewallRule>,
}

impl View for RuleEngine {
    type V = Seq<FirewallRule>;

    closed spec fn view(&self) -> Seq<FirewallRule> {
        self.rules@
    }
}

impl RuleEngine {
    pub fn new(rules: Vec<FirewallRule>) -> (engine: RuleEngine)
        ensures
            engine@ == rules@,
    {
        RuleEngine { rules }
    }

    /// The rules, in the order in which they are tried.
    pub fn rules(&self) -> (r: &Vec<FirewallRule>)
        ensures
            r@ == self@,
    {
        &self.rules
    }

    /// The index of the rule that decides the packet: the first enabled rule
    /// that matches it, if any.
    pub fn first_match(&self, packet: &Packet) -> (r: Option<usize>)
        ensures
            match r {
                Some(i) => spec_first_match(self@, *packet) == Some(i as int) && i < self@.len(),
                None => spec_first_match(self@, *packet) is None,
            },
    {
        let mut i: usize = 0;
        while i < self.rules.len()
            invariant
                i <= self.rules.len(),
                forall|j: int| 0 <= j < i ==> !spec_rule_applies(#[trigger] self.rules@[j], *packet),
            decreases self.rules.len() - i,
        {
            let rule = &self.rules[i];
            if rule.enabled && self.rule_matches(rule, packet) {
                proof {
                    lemma_first_match_decides(self.rules@, *packet, i as int);
                }
                return Some(i);
            }
            i += 1;
        }
        proof {
            lemma_no_match_decides_nothing(self.rules@, *packet);
        }
        None
    }

    /// The action of the first enabled rule that matches the packet, if any.
    pub fn apply_rules(&self, packet: &Packet) -> (r: Option<Action>)
        ensures
            r == spec_apply_rules(self@, *packet),
    {
        match self.first_match(packet) {
            Some(i) => Some(self.rules[i].action),
            None => None,
        }
    }

    /// The rules that carry a defect, by their indices in rising order: those
    /// with a source or destination specifier that denotes nothing. Such a
    /// rule matches no packet; it is for the caller to report it.
    pub fn invalid_rules(&self) -> (r: Vec<usize>)
        ensures
            forall|k: int|
                0 <= k < r@.len() ==> (#[trigger] r@[k]) < self@.len()
                    && spec_has_invalid_specifier(self@[r@[k] as int]),
            forall|i: int|
                0 <= i < self@.len() && spec_has_invalid_specifier(#[trigger] self@[i])
                    ==> r@.contains(i as usize),
            forall|a: int, b: int| 0 <= a < b < r@.len() ==> r@[a] < r@[b],
    {
        let mut found: Vec<usize> = Vec::new();
        let mut i: usize = 0;
        while i < self.rules.len()
            invariant
                i <= self.rules.len(),
                forall|k: int|
                    0 <= k < found@.len() ==> (#[trigger] found@[k]) < i
                        && spec_has_invalid_specifier(self.rules@[found@[k] as int]),
                forall|j: int|
                    0 <= j < i && spec_has_invalid_specifier(#[trigger] self.rules@[j])
                        ==> found@.contains(j as usize),
                forall|a: int, b: int| 0 <= a < b < found@.len() ==> found@[a] < found@[b],
            decreases self.rules.len() - i,
        {
            let rule = &self.rules[i];
            if Self::denotes_nothing(&rule.src_ip) || Self::denotes_nothing(&rule.dst_ip) {
                let ghost before = found@;
                found.push(i);
                proof {
                    assert(found@[before.len() as int] == i);
                    assert forall|j: int|
                        0 <= j < i + 1 && spec_has_invalid_specifier(
                            #[trigger] self.rules@[j],
                        ) implies found@.contains(j as usize) by {
                        if j < i {
                            let k = choose|k: int| 0 <= k < before.len() && before[k] == j as usize;
                            assert(found@[k] == j as usize);
                        }
                    }
                }
            }
            i += 1;
        }
        found
    }

    fn denotes_nothing(specifier: &Option<String>) -> (r: bool)
        ensures
            r == (*specifier matches Some(text) && parsed_network(text@) is None),
    {
        match specifier {
            Some(text) => parse_network(text.as_str()).is_none(),
            None => false,
        }
    }

    /// Whether the rule's predicate holds of the packet, enabled or not.
    pub fn rule_matches(&self, rule: &FirewallRule, packet: &Packet) -> (r: bool)
        ensures
            r == spec_rule_matches(*rule, *packet),
    {
        match rule.direction {
            Direction::Outbound => if !packet.is_outbound() {
                return false;
            },
            Direction::Inbound => if !packet.is_inbound() {
                return false;
            },
            Direction::Any => {},
        }
        match rule.protocol {
            Protocol::TCP => if packet.protocol != Protocol::TCP {
                return false;
            },
            Protocol::UDP => if packet.protocol != Protocol::UDP {
                return false;
            },
            Protocol::ICMP => if packet.protocol != Protocol::ICMP {
                return false;
            },
            Protocol::Any => {},
        }
        if let Some(ref specifier) = rule.src_ip {
            if !self.ip_matches(specifier.as_str(), packet.src_ip) {
                return false;
            }
        }
        if let Some(ref specifier) = rule.dst_ip {
            if !self.ip_matches(specifier.as_str(), packet.dst_ip) {
                return false;
            }
        }
        if let Some(wanted) = rule.src_port {
            if let Some(port) = packet.src_port {
                if wanted != port {
                    return false;
                }
            } else {
                return false;
            }
        }
        if let Some(wanted) = rule.dst_port {
            if let Some(port) = packet.dst_port {
                if wanted != port {
                    return false;
                }
            } else {
                return false;
            }
        }
        true
    }

    /// Whether the address satisfies the specifier.
    pub fn ip_matches(&self, ip_rule: &str, packet_ip: IpAddress) -> (r: bool)
        ensures
            r == spec_ip_matches(ip_rule@, packet_ip),
    {
        match parse_network(ip_rule) {
            Some(network) => network.contains(packet_ip),
            None => false,
        }
    }
}

} // verus!
