//! The dynamic blocker: which addresses are blocked, since when and for how
//! long; which are exempt; and how many blocked attempts each of the others
//! has made. An address that reaches the threshold is blocked by itself.
//!
//! Every operation that depends on the time comes twice: under its plain name
//! it reads the blocker's clock, and with `_at` in its name it takes the time
//! as an argument. Times are in nanoseconds since the blocker was made.

use crate::address::{host_address, IpAddress};
use crate::address_table::{AddressMap, AddressSet};
use crate::clock::{clock_origin, nanos_since};
use crate::config::BlocklistConfig;
use crate::error::FirewallError;
use std::time::Instant;
use vstd::prelude::*;

verus! {

pub const NANOS_PER_SECOND: u128 = 1_000_000_000;

/// A block: when it began, and for how many seconds it holds. A block
/// without a duration is permanent.
#[derive(Clone, Copy, Debug, PartialEq, Eq, Structural)]
pub struct BlockEntry {
    pub start: u128,
    pub duration: Option<u64>,
}

impl BlockEntry {
    /// The time that has passed since the block began; none, where `now` lies
    /// before its start.
    pub open spec fn spec_elapsed(&self, now: u128) -> nat {
        if now >= self.start {
            (now - self.start) as nat
        } else {
            0
        }
    }

    /// Whether the block still holds at `now`.
    pub open spec fn spec_is_active(&self, now: u128) -> bool {
        match self.duration {
            Some(seconds) => self.spec_elapsed(now) < seconds * NANOS_PER_SECOND,
            None => true,
        }
    }

    #[verifier::when_used_as_spec(spec_is_active)]
    pub fn is_active(&self, now: u128) -> (r: bool)
        ensures
            r == self.spec_is_active(now),
    {
        match self.duration {
            Some(seconds) => {
                let elapsed: u128 = if now >= self.start {
                    now - self.start
                } else {
                    0
                };
                elapsed < (seconds as u128) * NANOS_PER_SECOND
            },
            None => true,
        }
    }
}

/// The blocker as a value: its settings, the exempt addresses, the blocks and
/// the attempt counts.
#[verifier::ext_equal]
pub struct BlockerState {
    pub enabled: bool,
    pub whitelist: Set<IpAddress>,
    pub blocked: Map<IpAddress, BlockEntry>,
    pub attempts: Map<IpAddress, u32>,
    pub auto_block_threshold: u32,
    pub block_duration: u64,
}

/// The addresses that a whitelist in text exempts: those that its entries
/// denote. An entry that denotes no address exempts nothing.
pub open spec fn whitelist_of(entries: Seq<String>) -> Set<IpAddress> {
    Set::new(
        |ip: IpAddress|
            exists|i: int| 0 <= i < entries.len() && host_address(#[trigger] entries[i]@) == Some(ip),
    )
}

impl BlockerState {
    /// The blocker that a configuration asks for, with nothing blocked and
    /// nothing counted.
    pub open spec fn initial(config: BlocklistConfig) -> BlockerState {
        BlockerState {
            enabled: config.enabled,
            whitelist: whitelist_of(config.whitelist@),
            blocked: Map::empty(),
            attempts: Map::empty(),
            auto_block_threshold: config.auto_block_threshold,
            block_duration: config.block_duration,
        }
    }

    /// What every blocker keeps: a count is at least one and below the
    /// threshold; no address has both a block and a count; and an exempt
    /// address has neither.
    pub open spec fn wf(self) -> bool {
        &&& forall|ip: IpAddress| #[trigger]
            self.attempts.contains_key(ip) ==> 1 <= self.attempts[ip] < self.auto_block_threshold
        &&& forall|ip: IpAddress|
            !(#[trigger] self.blocked.contains_key(ip) && self.attempts.contains_key(ip))
        &&& forall|ip: IpAddress| #[trigger]
            self.whitelist.contains(ip) ==> !self.blocked.contains_key(ip)
                && !self.attempts.contains_key(ip)
    }

    /// The number of attempts counted for an address.
    pub open spec fn attempt_count(self, ip: IpAddress) -> nat {
        if self.attempts.contains_key(ip) {
            self.attempts[ip] as nat
        } else {
            0
        }
    }

    /// Whether an address counts as blocked at `now`: the blocker is on, the
    /// address is not exempt, and a block of it still holds.
    pub open spec fn is_blocked(self, ip: IpAddress, now: u128) -> bool {
        &&& self.enabled
        &&& !self.whitelist.contains(ip)
        &&& self.blocked.contains_key(ip)
        &&& self.blocked[ip].spec_is_active(now)
    }

    /// The blocker with a block of `ip` from `now` on, and no count for it.
    pub open spec fn with_block(self, ip: IpAddress, entry: BlockEntry) -> BlockerState {
        BlockerState {
            blocked: self.blocked.insert(ip, entry),
            attempts: self.attempts.remove(ip),
            ..self
        }
    }

    /// The blocker after a blocked attempt of `ip` at `now`. Nothing changes
    /// where the blocker is off, the address is exempt, or it has a block:
    /// an address with a block is passed over until the block is lifted or
    /// swept, even where the block holds no longer. Otherwise the attempt is
    /// counted, and with the count that reaches the threshold the address is
    /// blocked for the configured duration and its count is dropped.
    pub open spec fn record_attempt(self, ip: IpAddress, now: u128) -> BlockerState {
        if !self.enabled || self.whitelist.contains(ip) || self.blocked.contains_key(ip) {
            self
        } else if self.attempt_count(ip) + 1 >= self.auto_block_threshold {
            self.with_block(ip, BlockEntry { start: now, duration: Some(self.block_duration) })
        } else {
            BlockerState {
                attempts: self.attempts.insert(ip, (self.attempt_count(ip) + 1) as u32),
                ..self
            }
        }
    }

    /// The blocker after a manual block of `ip` at `now`: unchanged where the
    /// address is exempt; otherwise with the new block in place of any
    /// earlier one, and without a count for the address.
    pub open spec fn block(self, ip: IpAddress, duration: Option<u64>, now: u128) -> BlockerState {
        if self.whitelist.contains(ip) {
            self
        } else {
            self.with_block(ip, BlockEntry { start: now, duration })
        }
    }

    /// What a manual block of `ip` answers: an exempt address is refused.
    pub open spec fn block_result(self, ip: IpAddress) -> Result<(), FirewallError> {
        if self.whitelist.contains(ip) {
            Err(FirewallError::WhitelistViolation)
        } else {
            Ok(())
        }
    }

    /// What lifting the block of `ip` answers: an address without a block is
    /// refused.
    pub open spec fn unblock_result(self, ip: IpAddress) -> Result<(), FirewallError> {
        if self.blocked.contains_key(ip) {
            Ok(())
        } else {
            Err(FirewallError::NotBlocked)
        }
    }

    /// The blocker without a block of `ip`. No count is touched: an address
    /// that had a block has none, and so is clean afterwards.
    pub open spec fn unblock(self, ip: IpAddress) -> BlockerState {
        BlockerState { blocked: self.blocked.remove(ip), ..self }
    }

    /// The blocker after a sweep at `now`: the blocks that still hold stay,
    /// the others go.
    pub open spec fn sweep(self, now: u128) -> BlockerState {
        BlockerState {
            blocked: Map::new(
                |ip: IpAddress| self.blocked.contains_key(ip) && self.blocked[ip].spec_is_active(now),
                |ip: IpAddress| self.blocked[ip],
            ),
            ..self
        }
    }
}

#[derive(Debug)]
pub struct Blocker {
    enabled: bool,
    blocked_ips: AddressMap<BlockEntry>,
    whitelist: AddressSet,
    connection_attempts: AddressMap<u32>,
    auto_block_threshold: u32,
    block_duration: u64,
    origin: Instant,
}

impl View for Blocker {
    type V = BlockerState;

    closed spec fn view(&self) -> BlockerState {
        BlockerState {
            enabled: self.enabled,
            whitelist: self.whitelist@,
            blocked: self.blocked_ips@,
            attempts: self.connection_attempts@,
            auto_block_threshold: self.auto_block_threshold,
            block_duration: self.block_duration,
        }
    }
}

impl Clone for Blocker {
    /// A copy with the same settings, blocks and counts, on the same clock.
    fn clone(&self) -> (copy: Blocker)
        ensures
            copy@ == self@,
    {
        Blocker {
            enabled: self.enabled,
            blocked_ips: self.blocked_ips.clone(),
            whitelist: self.whitelist.clone(),
            connection_attempts: self.connection_attempts.clone(),
            auto_block_threshold: self.auto_block_threshold,
            block_duration: self.block_duration,
            origin: self.origin,
        }
    }
}

impl Blocker {
    /// A blocker with the configuration's settings. The whitelist's entries
    /// that denote an address are exempt; the others are passed over.
    pub fn new(config: &BlocklistConfig) -> (blocker: Blocker)
        ensures
            blocker@ == BlockerState::initial(*config),
            blocker@.wf(),
    {
        let mut whitelist = AddressSet::new();
        let mut i: usize = 0;
        while i < config.whitelist.len()
            invariant
                i <= config.whitelist.len(),
                whitelist@ == whitelist_of(config.whitelist@.take(i as int)),
            decreases config.whitelist.len() - i,
        {
            let ghost before = config.whitelist@.take(i as int);
            let ghost after = config.whitelist@.take(i + 1);
            let parsed = IpAddress::parse(config.whitelist[i].as_str());
            proof {
                assert(after == before.push(config.whitelist@[i as int]));
                assert forall|ip: IpAddress|
                    whitelist_of(after).contains(ip) <==> (whitelist_of(before).contains(ip)
                        || parsed == Some(ip)) by {
                    if whitelist_of(after).contains(ip) {
                        let j = choose|j: int|
                            0 <= j < after.len() && host_address(#[trigger] after[j]@) == Some(ip);
                        if j < i {
                            assert(before[j] == after[j]);
                        }
                    }
                    if whitelist_of(before).contains(ip) {
                        let j = choose|j: int|
                            0 <= j < before.len() && host_address(#[trigger] before[j]@) == Some(
                                ip,
                            );
                        assert(after[j] == before[j]);
                    }
                    if parsed == Some(ip) {
                        assert(host_address(after[i as int]@) == Some(ip));
                    }
                }
            }
            if let Some(ip) = parsed {
                whitelist.insert(ip);
            }
            assert(whitelist@ =~= whitelist_of(after));
            i += 1;
        }
        assert(config.whitelist@.take(i as int) == config.whitelist@);
        let blocker = Blocker {
            enabled: config.enabled,
            blocked_ips: AddressMap::new(),
            whitelist,
            connection_attempts: AddressMap::new(),
            auto_block_threshold: config.auto_block_threshold,
            block_duration: config.block_duration,
            origin: clock_origin(),
        };
        assert(blocker@ =~= BlockerState::initial(*config));
        blocker
    }

    /// The time by the blocker's clock.
    pub fn now(&self) -> u128 {
        nanos_since(&self.origin)
    }

    pub fn is_enabled(&self) -> (r: bool)
        ensures
            r == self@.enabled,
    {
        self.enabled
    }

    /// Whether the address is exempt from blocking.
    pub fn is_whitelisted(&self, ip: &IpAddress) -> (r: bool)
        ensures
            r == self@.whitelist.contains(*ip),
    {
        self.whitelist.contains(ip)
    }

    /// The number of attempts counted for the address.
    pub fn attempt_count(&self, ip: &IpAddress) -> (r: u32)
        ensures
            r == self@.attempt_count(*ip),
    {
        match self.connection_attempts.get(ip) {
            Some(count) => *count,
            None => 0,
        }
    }

    /// The block of the address, if it has one, holding or not.
    pub fn block_entry(&self, ip: &IpAddress) -> (r: Option<BlockEntry>)
        ensures
            r == if self@.blocked.contains_key(*ip) {
                Some(self@.blocked[*ip])
            } else {
                None
            },
    {
        match self.blocked_ips.get(ip) {
            Some(entry) => Some(*entry),
            None => None,
        }
    }

    /// Whether the address counts as blocked at `now`. Changes nothing.
    pub fn is_blocked_at(&self, ip: &IpAddress, now: u128) -> (r: bool)
        ensures
            r == self@.is_blocked(*ip, now),
    {
        if !self.enabled || self.whitelist.contains(ip) {
            return false;
        }
        match self.blocked_ips.get(ip) {
            Some(entry) => entry.is_active(now),
            None => false,
        }
    }

    /// Whether the address counts as blocked at the time that the clock
    /// gives.
    pub fn is_blocked(&self, ip: &IpAddress) -> (r: bool)
        ensures
            exists|now: u128| r == self@.is_blocked(*ip, now),
    {
        let now = self.now();
        let r = self.is_blocked_at(ip, now);
        assert(r == self@.is_blocked(*ip, now));
        r
    }

    /// Takes note of a blocked attempt of the address at `now`.
    pub fn record_connection_attempt_at(&mut self, ip: IpAddress, now: u128)
        ensures
            final(self)@ == old(self)@.record_attempt(ip, now),
            old(self)@.wf() ==> final(self)@.wf(),
    {
        if !self.enabled || self.whitelist.contains(&ip) || self.blocked_ips.get(&ip).is_some() {
            return;
        }
        let count: u64 = self.attempt_count(&ip) as u64 + 1;
        if count >= self.auto_block_threshold as u64 {
            self.blocked_ips.insert(
                ip,
                BlockEntry { start: now, duration: Some(self.block_duration) },
            );
            self.connection_attempts.remove(&ip);
        } else {
            self.connection_attempts.insert(ip, count as u32);
        }
        assert(final(self)@ =~= old(self)@.record_attempt(ip, now));
    }

    /// Takes note of a blocked attempt of the address at the time that the
    /// clock gives.
    pub fn record_connection_attempt(&mut self, ip: IpAddress)
        ensures
            exists|now: u128| final(self)@ == old(self)@.record_attempt(ip, now),
            old(self)@.wf() ==> final(self)@.wf(),
    {
        let now = self.now();
        self.record_connection_attempt_at(ip, now);
        assert(final(self)@ == old(self)@.record_attempt(ip, now));
    }

    /// Blocks the address from `now` on, for `duration` seconds or for good.
    /// An exempt address is refused.
    pub fn block_ip_at(&mut self, ip: IpAddress, duration: Option<u64>, now: u128) -> (r: Result<
        (),
        FirewallError,
    >)
        ensures
            r == old(self)@.block_result(ip),
            final(self)@ == old(self)@.block(ip, duration, now),
            old(self)@.wf() ==> final(self)@.wf(),
    {
        if self.whitelist.contains(&ip) {
            return Err(FirewallError::WhitelistViolation);
        }
        self.blocked_ips.insert(ip, BlockEntry { start: now, duration });
        self.connection_attempts.remove(&ip);
        assert(final(self)@ =~= old(self)@.block(ip, duration, now));
        Ok(())
    }

    /// Blocks the address from the time that the clock gives.
    pub fn block_ip(&mut self, ip: IpAddress, duration: Option<u64>) -> (r: Result<
        (),
        FirewallError,
    >)
        ensures
            r == old(self)@.block_result(ip),
            exists|now: u128| final(self)@ == old(self)@.block(ip, duration, now),
            old(self)@.wf() ==> final(self)@.wf(),
    {
        let now = self.now();
        let r = self.block_ip_at(ip, duration, now);
        assert(final(self)@ == old(self)@.block(ip, duration, now));
        r
    }

    /// Lifts the block of the address, holding or not. An address without a
    /// block is refused.
    pub fn unblock_ip(&mut self, ip: IpAddress) -> (r: Result<(), FirewallError>)
        ensures
            r == old(self)@.unblock_result(ip),
            final(self)@ == old(self)@.unblock(ip),
            old(self)@.wf() ==> final(self)@.wf(),
    {
        let removed = self.blocked_ips.remove(&ip);
        assert(final(self)@ =~= old(self)@.unblock(ip));
        match removed {
            Some(_) => Ok(()),
            None => Err(FirewallError::NotBlocked),
        }
    }

    /// Drops the blocks that hold no longer at `now`.
    pub fn cleanup_expired_blocks_at(&mut self, now: u128)
        ensures
            final(self)@ == old(self)@.sweep(now),
            old(self)@.wf() ==> final(self)@.wf(),
    {
        let keys = self.blocked_ips.keys();
        let ghost before = self.blocked_ips@;
        let mut i: usize = 0;
        while i < keys.len()
            invariant
                i <= keys.len(),
                keys@.to_set() == before.dom(),
                before == old(self)@.blocked,
                self.enabled == old(self).enabled,
                self.whitelist == old(self).whitelist,
                self.connection_attempts == old(self).connection_attempts,
                self.auto_block_threshold == old(self).auto_block_threshold,
                self.block_duration == old(self).block_duration,
                forall|ip: IpAddress| #[trigger]
                    self.blocked_ips@.contains_key(ip) ==> before.contains_key(ip)
                        && self.blocked_ips@[ip] == before[ip],
                forall|ip: IpAddress|
                    before.contains_key(ip) && !(#[trigger] self.blocked_ips@.contains_key(ip))
                        ==> !before[ip].spec_is_active(now),
                forall|j: int|
                    0 <= j < i && !before[#[trigger] keys@[j]].spec_is_active(now)
                        ==> !self.blocked_ips@.contains_key(keys@[j]),
            decreases keys.len() - i,
        {
            let ip = keys[i];
            assert(keys@.to_set().contains(ip));
            let expired = match self.blocked_ips.get(&ip) {
                Some(entry) => !entry.is_active(now),
                None => false,
            };
            if expired {
                self.blocked_ips.remove(&ip);
            }
            i += 1;
        }
        proof {
            assert forall|ip: IpAddress|
                before.contains_key(ip) && before[ip].spec_is_active(now)
                    implies self.blocked_ips@.contains_key(ip) by {}
            assert forall|ip: IpAddress|
                before.contains_key(ip) && !before[ip].spec_is_active(now)
                    implies !self.blocked_ips@.contains_key(ip) by {
                assert(keys@.to_set().contains(ip));
                let j = choose|j: int| 0 <= j < keys@.len() && keys@[j] == ip;
                assert(!before[keys@[j]].spec_is_active(now));
            }
            assert(self.blocked_ips@ =~= old(self)@.sweep(now).blocked);
            assert(final(self)@ =~= old(self)@.sweep(now));
        }
    }

    /// Drops the blocks that hold no longer at the time that the clock gives.
    pub fn cleanup_expired_blocks(&mut self)
        ensures
            exists|now: u128| final(self)@ == old(self)@.sweep(now),
            old(self)@.wf() ==> final(self)@.wf(),
    {
        let now = self.now();
        self.cleanup_expired_blocks_at(now);
        assert(final(self)@ == old(self)@.sweep(now));
    }
}

} // verus!
