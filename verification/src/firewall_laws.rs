//! What holds of the firewall's decisions whatever its rules and history.

use crate::blocker::BlockEntry;
use crate::blocker_laws::{
    after_attempts_of,
    lemma_attempts_of_keep_settings,
    lemma_attempts_of_unfold,
    lemma_attempts_touch_one_address,
    lemma_threshold_blocks_exactly,
};
use crate::config::{Action, Direction};
use crate::firewall::{remote_address, spec_decide, spec_geo_blocks, FirewallState, Stage};
use crate::packet::Packet;
use crate::simple_geo::country_tag;
use vstd::prelude::*;

verus! {

/// The firewall after one packet was decided again and again, at the times
/// given.
pub open spec fn after_repeated(s: FirewallState, packet: Packet, times: Seq<u128>) -> FirewallState
    decreases times.len(),
{
    if times.len() == 0 {
        s
    } else {
        after_repeated(s, packet, times.drop_last()).evaluate(packet, times.last()).1
    }
}

/// The geo layer comes before the rules. A packet whose far endpoint the geo
/// layer blocks, and is not exempt, is blocked at that stage, whatever the
/// rules and the default action say, and the firewall stays as it was.
pub proof fn lemma_geo_precedes_rules(s: FirewallState, packet: Packet, now: u128)
    requires
        spec_geo_blocks(s.geo, s.blocker.whitelist, packet.src_ip, packet.dst_ip, packet.direction),
    ensures
        s.evaluate(packet, now).0.action == Action::Block,
        s.evaluate(packet, now).0.stage == Stage::Geo,
        s.evaluate(packet, now).1 == s,
{
}

/// With the geo layer on and a tag blocked, an inbound packet whose source
/// falls under the tag and is not exempt is blocked by the geo layer, even
/// where a rule that allows it matches.
pub proof fn lemma_blocked_tag_stops_inbound(
    s: FirewallState,
    packet: Packet,
    tag: Seq<char>,
    now: u128,
)
    requires
        s.geo.enabled,
        s.geo.blocked.contains(tag),
        packet.direction == Direction::Inbound,
        country_tag(packet.src_ip) == tag,
        !s.blocker.whitelist.contains(packet.src_ip),
    ensures
        s.evaluate(packet, now).0.action == Action::Block,
        s.evaluate(packet, now).0.stage == Stage::Geo,
{
}

/// Exemption comes before the geo layer and the blocklist. A packet whose
/// far endpoint is exempt is never stopped by the geo layer, whatever range
/// the endpoint falls in and whether the blocker is on or off; and an exempt
/// endpoint never counts as blocked. Where the near endpoint is not blocked
/// either, the rules and the default action decide the packet.
pub proof fn lemma_exempt_endpoint_passes_screening(s: FirewallState, packet: Packet, now: u128)
    requires
        remote_address(packet.src_ip, packet.dst_ip, packet.direction) matches Some(remote)
            && s.blocker.whitelist.contains(remote),
    ensures
        !spec_geo_blocks(
            s.geo,
            s.blocker.whitelist,
            packet.src_ip,
            packet.dst_ip,
            packet.direction,
        ),
        s.evaluate(packet, now).0.stage != Stage::Geo,
        !s.blocker.is_blocked(remote_address(packet.src_ip, packet.dst_ip, packet.direction)->0, now),
        !s.blocker.is_blocked(packet.src_ip, now) && !s.blocker.is_blocked(packet.dst_ip, now) ==> {
            &&& s.evaluate(packet, now).0.action == spec_decide(
                s.rules,
                s.default_action,
                packet,
            ).0
            &&& s.evaluate(packet, now).0.stage == spec_decide(
                s.rules,
                s.default_action,
                packet,
            ).1
        },
{
}

/// The blocklist comes before the rules. A packet that the geo layer lets
/// pass and of which an endpoint is blocked is blocked at that stage,
/// whatever the rules say; the rules are not tried and no attempt is
/// counted.
pub proof fn lemma_blocklist_precedes_rules(s: FirewallState, packet: Packet, now: u128)
    requires
        !spec_geo_blocks(s.geo, s.blocker.whitelist, packet.src_ip, packet.dst_ip, packet.direction),
        s.blocker.is_blocked(packet.src_ip, now) || s.blocker.is_blocked(packet.dst_ip, now),
    ensures
        s.evaluate(packet, now).0.action == Action::Block,
        s.evaluate(packet, now).0.stage == Stage::Blocklist,
        s.evaluate(packet, now).1 == s,
{
}

/// A packet that neither the geo layer nor the blocklist stops is decided by
/// the rules or the default action; where they block it, and only then, an
/// attempt of its source is counted.
pub proof fn lemma_unscreened_packet_goes_by_rules(s: FirewallState, packet: Packet, now: u128)
    requires
        !spec_geo_blocks(s.geo, s.blocker.whitelist, packet.src_ip, packet.dst_ip, packet.direction),
        !s.blocker.is_blocked(packet.src_ip, now),
        !s.blocker.is_blocked(packet.dst_ip, now),
    ensures
        s.evaluate(packet, now).0.action == spec_decide(s.rules, s.default_action, packet).0,
        s.evaluate(packet, now).0.stage == spec_decide(s.rules, s.default_action, packet).1,
        s.evaluate(packet, now).1.blocker == if spec_decide(s.rules, s.default_action, packet).0
            == Action::Block {
            s.blocker.record_attempt(packet.src_ip, now)
        } else {
            s.blocker
        },
{
}

/// Deciding a packet changes nothing of the firewall but its blocker.
pub proof fn lemma_evaluate_changes_blocker_only(s: FirewallState, packet: Packet, now: u128)
    ensures
        s.evaluate(packet, now).1 == s.with_blocker(s.evaluate(packet, now).1.blocker),
{
}

/// Blocked packets escalate. Take a packet that the rules or the default
/// block, from a source that is neither exempt nor counted nor blocked, to a
/// destination without a block, and let the geo layer pass it. Decided again
/// and again, it is blocked by the rules or the default each time, and each
/// time counts as one attempt of its source. With the time that reaches the
/// threshold the source is blocked, from that time on and for the configured
/// duration.
pub proof fn lemma_repeated_blocks_escalate(s: FirewallState, packet: Packet, times: Seq<u128>)
    requires
        s.blocker.enabled,
        s.blocker.auto_block_threshold >= 1,
        !s.blocker.whitelist.contains(packet.src_ip),
        !s.blocker.blocked.contains_key(packet.src_ip),
        !s.blocker.attempts.contains_key(packet.src_ip),
        !s.blocker.blocked.contains_key(packet.dst_ip),
        !spec_geo_blocks(s.geo, s.blocker.whitelist, packet.src_ip, packet.dst_ip, packet.direction),
        spec_decide(s.rules, s.default_action, packet).0 == Action::Block,
        times.len() <= s.blocker.auto_block_threshold,
    ensures
        after_repeated(s, packet, times) == s.with_blocker(
            after_attempts_of(s.blocker, packet.src_ip, times),
        ),
        times.len() > 0 ==> {
            let last = after_repeated(s, packet, times.drop_last()).evaluate(
                packet,
                times.last(),
            ).0;
            &&& last.action == Action::Block
            &&& last.stage == spec_decide(s.rules, s.default_action, packet).1
        },
        times.len() < s.blocker.auto_block_threshold ==> {
            &&& !after_repeated(s, packet, times).blocker.blocked.contains_key(packet.src_ip)
            &&& after_repeated(s, packet, times).blocker.attempt_count(packet.src_ip)
                == times.len()
        },
        times.len() == s.blocker.auto_block_threshold ==> {
            &&& after_repeated(s, packet, times).blocker.blocked.contains_key(packet.src_ip)
            &&& after_repeated(s, packet, times).blocker.blocked[packet.src_ip] == (BlockEntry {
                start: times.last(),
                duration: Some(s.blocker.block_duration),
            })
        },
    decreases times.len(),
{
    let ip = packet.src_ip;
    lemma_threshold_blocks_exactly(s.blocker, ip, times);
    if times.len() > 0 {
        let earlier = times.drop_last();
        lemma_repeated_blocks_escalate(s, packet, earlier);
        lemma_threshold_blocks_exactly(s.blocker, ip, earlier);
        lemma_attempts_of_unfold(s.blocker, ip, times);
        let before = after_repeated(s, packet, earlier);
        assert(before.blocker == after_attempts_of(s.blocker, ip, earlier));
        assert(!before.blocker.is_blocked(ip, times.last()));
        if packet.dst_ip != ip {
            lemma_attempts_touch_one_address(s.blocker, ip, earlier, packet.dst_ip);
        }
        assert(!before.blocker.is_blocked(packet.dst_ip, times.last()));
        lemma_unscreened_packet_goes_by_rules(before, packet, times.last());
    }
}

/// Once its source is blocked, a packet is stopped by the blocklist as long
/// as the block holds, without the rules being tried: after as many blocked
/// packets as the threshold says, a further packet from the source, at a
/// time at which the block still holds, is blocked at the blocklist stage.
pub proof fn lemma_escalated_source_is_screened(
    s: FirewallState,
    packet: Packet,
    times: Seq<u128>,
    further: Packet,
    now: u128,
)
    requires
        s.blocker.enabled,
        s.blocker.auto_block_threshold >= 1,
        !s.blocker.whitelist.contains(packet.src_ip),
        !s.blocker.blocked.contains_key(packet.src_ip),
        !s.blocker.attempts.contains_key(packet.src_ip),
        !s.blocker.blocked.contains_key(packet.dst_ip),
        !spec_geo_blocks(s.geo, s.blocker.whitelist, packet.src_ip, packet.dst_ip, packet.direction),
        spec_decide(s.rules, s.default_action, packet).0 == Action::Block,
        times.len() == s.blocker.auto_block_threshold,
        further.src_ip == packet.src_ip,
        !spec_geo_blocks(s.geo, s.blocker.whitelist, further.src_ip, further.dst_ip, further.direction),
        (BlockEntry {
            start: times.last(),
            duration: Some(s.blocker.block_duration),
        }).spec_is_active(now),
    ensures
        after_repeated(s, packet, times).evaluate(further, now).0.action == Action::Block,
        after_repeated(s, packet, times).evaluate(further, now).0.stage == Stage::Blocklist,
        after_repeated(s, packet, times).evaluate(further, now).1 == after_repeated(
            s,
            packet,
            times,
        ),
{
    lemma_repeated_blocks_escalate(s, packet, times);
    let after = after_repeated(s, packet, times);
    lemma_attempts_of_keep_settings(s.blocker, packet.src_ip, times);
    assert(after.blocker.is_blocked(further.src_ip, now));
    lemma_blocklist_precedes_rules(after, further, now);
}

} // verus!
