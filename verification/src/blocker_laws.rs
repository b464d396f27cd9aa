//! What holds of the dynamic blocker whatever its settings and history.

use crate::address::IpAddress;
use crate::blocker::{BlockEntry, BlockerState, NANOS_PER_SECOND};
use crate::error::FirewallError;
use vstd::prelude::*;

verus! {

/// The blocker after a run of blocked attempts, each of some address at some
/// time, in the order given.
pub open spec fn after_attempts(s: BlockerState, attempts: Seq<(IpAddress, u128)>) -> BlockerState
    decreases attempts.len(),
{
    if attempts.len() == 0 {
        s
    } else {
        after_attempts(s, attempts.drop_last()).record_attempt(attempts.last().0, attempts.last().1)
    }
}

/// The blocker after `times.len()` blocked attempts of one address, at the
/// times given.
pub open spec fn after_attempts_of(s: BlockerState, ip: IpAddress, times: Seq<u128>) -> BlockerState {
    after_attempts(s, times.map_values(|t: u128| (ip, t)))
}

/// Every operation keeps what every blocker keeps.
pub proof fn lemma_operations_keep_wf(
    s: BlockerState,
    ip: IpAddress,
    duration: Option<u64>,
    now: u128,
)
    requires
        s.wf(),
    ensures
        s.record_attempt(ip, now).wf(),
        s.block(ip, duration, now).wf(),
        s.unblock(ip).wf(),
        s.sweep(now).wf(),
{
}

/// A run of attempts keeps what every blocker keeps.
pub proof fn lemma_attempts_keep_wf(s: BlockerState, attempts: Seq<(IpAddress, u128)>)
    requires
        s.wf(),
    ensures
        after_attempts(s, attempts).wf(),
    decreases attempts.len(),
{
    if attempts.len() > 0 {
        lemma_attempts_keep_wf(s, attempts.drop_last());
    }
}

/// A run of attempts changes neither the settings nor the whitelist.
pub proof fn lemma_attempts_keep_settings(s: BlockerState, attempts: Seq<(IpAddress, u128)>)
    ensures
        after_attempts(s, attempts).whitelist == s.whitelist,
        after_attempts(s, attempts).enabled == s.enabled,
        after_attempts(s, attempts).auto_block_threshold == s.auto_block_threshold,
        after_attempts(s, attempts).block_duration == s.block_duration,
    decreases attempts.len(),
{
    if attempts.len() > 0 {
        lemma_attempts_keep_settings(s, attempts.drop_last());
    }
}

/// Exemption is absolute. Whatever attempts were recorded before, of this
/// address or of others, an exempt address never counts as blocked, a manual
/// block of it is refused and changes nothing, and an attempt of it changes
/// nothing.
pub proof fn lemma_whitelist_is_absolute(
    s: BlockerState,
    attempts: Seq<(IpAddress, u128)>,
    ip: IpAddress,
    duration: Option<u64>,
    now: u128,
)
    requires
        s.whitelist.contains(ip),
    ensures
        !after_attempts(s, attempts).is_blocked(ip, now),
        after_attempts(s, attempts).block_result(ip) == Err::<(), FirewallError>(
            FirewallError::WhitelistViolation,
        ),
        after_attempts(s, attempts).block(ip, duration, now) == after_attempts(s, attempts),
        after_attempts(s, attempts).record_attempt(ip, now) == after_attempts(s, attempts),
{
    lemma_attempts_keep_settings(s, attempts);
}

/// An address that is neither counted nor blocked is blocked by exactly as
/// many attempts as the threshold says, and by no fewer. After fewer
/// attempts it has no block and its count is their number; the attempt that
/// reaches the threshold blocks it from that attempt's time on, for the
/// configured duration, and drops its count.
pub proof fn lemma_threshold_blocks_exactly(s: BlockerState, ip: IpAddress, times: Seq<u128>)
    requires
        s.enabled,
        !s.whitelist.contains(ip),
        !s.blocked.contains_key(ip),
        !s.attempts.contains_key(ip),
        s.auto_block_threshold >= 1,
        times.len() <= s.auto_block_threshold,
    ensures
        times.len() < s.auto_block_threshold ==> {
            &&& !after_attempts_of(s, ip, times).blocked.contains_key(ip)
            &&& after_attempts_of(s, ip, times).attempt_count(ip) == times.len()
            &&& forall|now: u128| !after_attempts_of(s, ip, times).is_blocked(ip, now)
        },
        times.len() == s.auto_block_threshold ==> {
            &&& after_attempts_of(s, ip, times).blocked.contains_key(ip)
            &&& after_attempts_of(s, ip, times).blocked[ip] == (BlockEntry {
                start: times.last(),
                duration: Some(s.block_duration),
            })
            &&& !after_attempts_of(s, ip, times).attempts.contains_key(ip)
            &&& after_attempts_of(s, ip, times).is_blocked(ip, times.last()) == (s.block_duration
                > 0)
        },
    decreases times.len(),
{
    if times.len() > 0 {
        let earlier = times.drop_last();
        lemma_threshold_blocks_exactly(s, ip, earlier);
        lemma_attempts_of_keep_settings(s, ip, earlier);
        lemma_attempts_of_unfold(s, ip, times);
    }
}

/// A permanent block never expires: after a manual block without a duration,
/// a sweep at whatever time leaves the block in place, and the address counts
/// as blocked at whatever time, as long as the blocker is on.
pub proof fn lemma_permanent_block_survives_sweep(
    s: BlockerState,
    ip: IpAddress,
    blocked_at: u128,
    swept_at: u128,
    now: u128,
)
    requires
        !s.whitelist.contains(ip),
    ensures
        s.block(ip, None, blocked_at).sweep(swept_at).blocked.contains_key(ip),
        s.block(ip, None, blocked_at).sweep(swept_at).blocked[ip] == (BlockEntry {
            start: blocked_at,
            duration: None,
        }),
        s.block(ip, None, blocked_at).sweep(swept_at).is_blocked(ip, now) == s.enabled,
{
}

/// A timed block expires: once its duration has passed, the address no
/// longer counts as blocked, and after a sweep it counts as blocked at no time
/// at all, the sweep having removed the block.
pub proof fn lemma_timed_block_expires(
    s: BlockerState,
    ip: IpAddress,
    seconds: u64,
    blocked_at: u128,
    swept_at: u128,
    now: u128,
)
    requires
        swept_at - blocked_at >= seconds * NANOS_PER_SECOND,
    ensures
        !s.block(ip, Some(seconds), blocked_at).is_blocked(ip, swept_at),
        !s.block(ip, Some(seconds), blocked_at).sweep(swept_at).is_blocked(ip, now),
        !s.whitelist.contains(ip) ==> !s.block(ip, Some(seconds), blocked_at).sweep(
            swept_at,
        ).blocked.contains_key(ip),
{
}

/// Until its duration has passed, a timed block holds, and a sweep leaves it
/// in place.
pub proof fn lemma_timed_block_holds_meanwhile(
    s: BlockerState,
    ip: IpAddress,
    seconds: u64,
    blocked_at: u128,
    now: u128,
)
    requires
        !s.whitelist.contains(ip),
        blocked_at <= now,
        now - blocked_at < seconds * NANOS_PER_SECOND,
    ensures
        s.block(ip, Some(seconds), blocked_at).is_blocked(ip, now) == s.enabled,
        s.block(ip, Some(seconds), blocked_at).sweep(now).blocked.contains_key(ip),
{
}

/// A sweep changes no answer at its own time or later: it removes only blocks
/// that hold no longer.
pub proof fn lemma_sweep_is_unobservable(s: BlockerState, ip: IpAddress, swept_at: u128, now: u128)
    requires
        swept_at <= now,
    ensures
        s.sweep(swept_at).is_blocked(ip, now) == s.is_blocked(ip, now),
{
}

/// A block that holds no longer stays expired as time goes on.
pub proof fn lemma_expiry_is_final(entry: BlockEntry, earlier: u128, later: u128)
    requires
        earlier <= later,
        !entry.spec_is_active(earlier),
    ensures
        !entry.spec_is_active(later),
{
}

/// Counting and being blocked exclude each other, and stay so: in a blocker
/// that keeps what every blocker keeps, no address has both a block and a
/// count, and none has after any operation.
pub proof fn lemma_counted_and_blocked_exclude(
    s: BlockerState,
    ip: IpAddress,
    duration: Option<u64>,
    now: u128,
    other: IpAddress,
)
    requires
        s.wf(),
    ensures
        !(s.blocked.contains_key(other) && s.attempts.contains_key(other)),
        !(s.record_attempt(ip, now).blocked.contains_key(other) && s.record_attempt(
            ip,
            now,
        ).attempts.contains_key(other)),
        !(s.block(ip, duration, now).blocked.contains_key(other) && s.block(
            ip,
            duration,
            now,
        ).attempts.contains_key(other)),
        !(s.unblock(ip).blocked.contains_key(other) && s.unblock(ip).attempts.contains_key(other)),
        !(s.sweep(now).blocked.contains_key(other) && s.sweep(now).attempts.contains_key(other)),
{
    lemma_operations_keep_wf(s, ip, duration, now);
}

/// An address with a block is passed over: an attempt of it changes nothing,
/// whether the block still holds or not, until the block is lifted or swept.
pub proof fn lemma_blocked_address_is_not_counted(s: BlockerState, ip: IpAddress, now: u128)
    requires
        s.blocked.contains_key(ip),
    ensures
        s.record_attempt(ip, now) == s,
{
}

/// An address whose block is lifted restarts clean: it has neither a block
/// nor a count.
pub proof fn lemma_unblocked_address_restarts_clean(s: BlockerState, ip: IpAddress)
    requires
        s.wf(),
        s.blocked.contains_key(ip),
    ensures
        !s.unblock(ip).blocked.contains_key(ip),
        !s.unblock(ip).attempts.contains_key(ip),
        s.unblock(ip).attempt_count(ip) == 0,
{
}

/// Lifting a block once lifts it; a second time there is nothing to lift.
pub proof fn lemma_unblock_then_not_blocked(s: BlockerState, ip: IpAddress, now: u128)
    ensures
        !s.unblock(ip).is_blocked(ip, now),
        s.unblock(ip).unblock_result(ip) == Err::<(), FirewallError>(FirewallError::NotBlocked),
        s.unblock(ip).attempts == s.attempts,
{
}

/// An attempt of one address leaves the blocks and the counts of every other
/// address as they were, and so does a run of attempts of it.
pub proof fn lemma_attempts_touch_one_address(
    s: BlockerState,
    ip: IpAddress,
    times: Seq<u128>,
    other: IpAddress,
)
    requires
        other != ip,
    ensures
        after_attempts_of(s, ip, times).blocked.contains_key(other) == s.blocked.contains_key(
            other,
        ),
        s.blocked.contains_key(other) ==> after_attempts_of(s, ip, times).blocked[other]
            == s.blocked[other],
        after_attempts_of(s, ip, times).attempt_count(other) == s.attempt_count(other),
        after_attempts_of(s, ip, times).whitelist == s.whitelist,
        after_attempts_of(s, ip, times).enabled == s.enabled,
    decreases times.len(),
{
    if times.len() > 0 {
        lemma_attempts_touch_one_address(s, ip, times.drop_last(), other);
        lemma_attempts_of_unfold(s, ip, times);
    }
}

/// A run of attempts of one address changes neither the settings nor the
/// whitelist.
pub proof fn lemma_attempts_of_keep_settings(s: BlockerState, ip: IpAddress, times: Seq<u128>)
    ensures
        after_attempts_of(s, ip, times).whitelist == s.whitelist,
        after_attempts_of(s, ip, times).enabled == s.enabled,
        after_attempts_of(s, ip, times).auto_block_threshold == s.auto_block_threshold,
        after_attempts_of(s, ip, times).block_duration == s.block_duration,
{
    lemma_attempts_keep_settings(s, times.map_values(|t: u128| (ip, t)));
}

/// One more attempt of an address after a run of attempts of it.
pub proof fn lemma_attempts_of_unfold(s: BlockerState, ip: IpAddress, times: Seq<u128>)
    requires
        times.len() > 0,
    ensures
        after_attempts_of(s, ip, times) == after_attempts_of(
            s,
            ip,
            times.drop_last(),
        ).record_attempt(ip, times.last()),
{
    let run = times.map_values(|t: u128| (ip, t));
    assert(run.drop_last() =~= times.drop_last().map_values(|t: u128| (ip, t)));
    assert(run.last() == (ip, times.last()));
}

} // verus!
