use rustguard::address::IpAddress;
use rustguard::blocker::{BlockEntry, Blocker, NANOS_PER_SECOND};
use rustguard::config::BlocklistConfig;
use rustguard::error::FirewallError;

fn config(threshold: u32, duration: u64) -> BlocklistConfig {
    BlocklistConfig {
        enabled: true,
        auto_block_threshold: threshold,
        block_duration: duration,
        whitelist: vec!["127.0.0.1".to_string(), "::1".to_string()],
    }
}

fn offender() -> IpAddress {
    IpAddress::v4(203, 0, 113, 7)
}

#[test]
fn block_entry_holds_until_its_duration_has_passed() {
    let entry = BlockEntry { start: 5 * NANOS_PER_SECOND, duration: Some(10) };
    assert!(entry.is_active(5 * NANOS_PER_SECOND));
    assert!(entry.is_active(15 * NANOS_PER_SECOND - 1));
    assert!(!entry.is_active(15 * NANOS_PER_SECOND));
    assert!(!entry.is_active(u128::MAX));
    // A time before the start counts as the start.
    assert!(entry.is_active(0));
}

#[test]
fn block_entry_of_no_seconds_never_holds() {
    let entry = BlockEntry { start: 7, duration: Some(0) };
    assert!(!entry.is_active(7));
    assert!(!entry.is_active(0));
    assert!(!entry.is_active(8));
}

#[test]
fn permanent_block_entry_always_holds() {
    let entry = BlockEntry { start: 7, duration: None };
    assert!(entry.is_active(0));
    assert!(entry.is_active(7));
    assert!(entry.is_active(u128::MAX));
}

#[test]
fn longest_duration_does_not_overflow() {
    let entry = BlockEntry { start: 0, duration: Some(u64::MAX) };
    assert!(entry.is_active(u64::MAX as u128 * NANOS_PER_SECOND - 1));
    assert!(!entry.is_active(u64::MAX as u128 * NANOS_PER_SECOND));
}

#[test]
fn new_blocker_is_clean() {
    let blocker = Blocker::new(&config(5, 3600));
    assert!(blocker.is_enabled());
    assert!(!blocker.is_blocked_at(&offender(), 0));
    assert!(!blocker.is_blocked(&offender()));
    assert_eq!(blocker.attempt_count(&offender()), 0);
    assert_eq!(blocker.block_entry(&offender()), None);
}

#[test]
fn whitelist_entries_are_parsed_and_bad_ones_passed_over() {
    let blocker = Blocker::new(&BlocklistConfig {
        enabled: true,
        auto_block_threshold: 3,
        block_duration: 60,
        whitelist: vec![
            "127.0.0.1".to_string(),
            "garbage".to_string(),
            "10.0.0.0/8".to_string(),
            "::1".to_string(),
            "192.168.1.1".to_string(),
        ],
    });
    assert!(blocker.is_whitelisted(&IpAddress::v4(127, 0, 0, 1)));
    assert!(blocker.is_whitelisted(&IpAddress::V6(1)));
    assert!(blocker.is_whitelisted(&IpAddress::v4(192, 168, 1, 1)));
    assert!(!blocker.is_whitelisted(&IpAddress::v4(10, 0, 0, 0)));
    assert!(!blocker.is_whitelisted(&IpAddress::v4(10, 1, 2, 3)));
    assert!(!blocker.is_whitelisted(&IpAddress::V4(1)));
    assert!(!blocker.is_whitelisted(&offender()));
}

#[test]
fn whitelisted_address_is_never_blocked() {
    let mut blocker = Blocker::new(&config(2, 3600));
    let local = IpAddress::v4(127, 0, 0, 1);
    for t in 0..10u128 {
        blocker.record_connection_attempt_at(local, t);
        blocker.record_connection_attempt_at(offender(), t);
    }
    assert!(!blocker.is_blocked_at(&local, 10));
    assert_eq!(blocker.attempt_count(&local), 0);
    assert_eq!(blocker.block_ip_at(local, None, 10), Err(FirewallError::WhitelistViolation));
    assert_eq!(blocker.block_ip_at(local, Some(5), 10), Err(FirewallError::WhitelistViolation));
    assert_eq!(blocker.block_ip(local, None), Err(FirewallError::WhitelistViolation));
    assert!(!blocker.is_blocked_at(&local, 11));
    assert!(!blocker.is_blocked(&local));
    assert_eq!(blocker.block_entry(&local), None);
    let local6 = IpAddress::V6(1);
    assert_eq!(blocker.block_ip_at(local6, None, 10), Err(FirewallError::WhitelistViolation));
    assert!(!blocker.is_blocked_at(&local6, 11));
}

#[test]
fn threshold_blocks_on_that_attempt_and_not_before() {
    let mut blocker = Blocker::new(&config(5, 3600));
    for n in 1..5u32 {
        blocker.record_connection_attempt_at(offender(), n as u128);
        assert!(!blocker.is_blocked_at(&offender(), n as u128));
        assert_eq!(blocker.attempt_count(&offender()), n);
        assert_eq!(blocker.block_entry(&offender()), None);
    }
    blocker.record_connection_attempt_at(offender(), 5);
    assert!(blocker.is_blocked_at(&offender(), 5));
    assert_eq!(blocker.block_entry(&offender()), Some(BlockEntry { start: 5, duration: Some(3600) }));
    assert_eq!(blocker.attempt_count(&offender()), 0);
}

#[test]
fn threshold_of_one_blocks_at_once() {
    let mut blocker = Blocker::new(&config(1, 60));
    blocker.record_connection_attempt_at(offender(), 9);
    assert!(blocker.is_blocked_at(&offender(), 9));
    assert_eq!(blocker.block_entry(&offender()), Some(BlockEntry { start: 9, duration: Some(60) }));
}

#[test]
fn threshold_of_zero_blocks_at_once() {
    let mut blocker = Blocker::new(&config(0, 60));
    assert!(!blocker.is_blocked_at(&offender(), 0));
    blocker.record_connection_attempt_at(offender(), 0);
    assert!(blocker.is_blocked_at(&offender(), 0));
}

#[test]
fn attempts_of_a_blocked_address_are_ignored() {
    let mut blocker = Blocker::new(&config(2, 10));
    blocker.record_connection_attempt_at(offender(), 0);
    blocker.record_connection_attempt_at(offender(), 1);
    let entry = blocker.block_entry(&offender());
    assert_eq!(entry, Some(BlockEntry { start: 1, duration: Some(10) }));
    blocker.record_connection_attempt_at(offender(), 2);
    blocker.record_connection_attempt_at(offender(), 3);
    assert_eq!(blocker.block_entry(&offender()), entry);
    assert_eq!(blocker.attempt_count(&offender()), 0);
}

#[test]
fn auto_block_expires_and_counting_starts_over_after_the_sweep() {
    let mut blocker = Blocker::new(&config(2, 10));
    blocker.record_connection_attempt_at(offender(), 0);
    blocker.record_connection_attempt_at(offender(), NANOS_PER_SECOND);
    assert!(blocker.is_blocked_at(&offender(), 10 * NANOS_PER_SECOND));
    assert!(!blocker.is_blocked_at(&offender(), 11 * NANOS_PER_SECOND));
    // The block has run out but is still there: the address is passed over.
    blocker.record_connection_attempt_at(offender(), 12 * NANOS_PER_SECOND);
    assert_eq!(blocker.attempt_count(&offender()), 0);
    assert_eq!(
        blocker.block_entry(&offender()),
        Some(BlockEntry { start: NANOS_PER_SECOND, duration: Some(10) })
    );
    // Once it is swept, counting starts over.
    blocker.cleanup_expired_blocks_at(12 * NANOS_PER_SECOND);
    assert_eq!(blocker.block_entry(&offender()), None);
    blocker.record_connection_attempt_at(offender(), 12 * NANOS_PER_SECOND);
    assert_eq!(blocker.attempt_count(&offender()), 1);
    assert!(!blocker.is_blocked_at(&offender(), 12 * NANOS_PER_SECOND));
    blocker.record_connection_attempt_at(offender(), 13 * NANOS_PER_SECOND);
    assert!(blocker.is_blocked_at(&offender(), 13 * NANOS_PER_SECOND));
    assert_eq!(
        blocker.block_entry(&offender()),
        Some(BlockEntry { start: 13 * NANOS_PER_SECOND, duration: Some(10) })
    );
    assert_eq!(blocker.attempt_count(&offender()), 0);
}

#[test]
fn no_address_is_both_counted_and_blocked() {
    let mut blocker = Blocker::new(&config(3, 1));
    let both = |b: &Blocker| b.attempt_count(&offender()) > 0 && b.block_entry(&offender()).is_some();
    blocker.record_connection_attempt_at(offender(), 0);
    assert!(!both(&blocker));
    blocker.block_ip_at(offender(), Some(1), 0).unwrap();
    assert!(!both(&blocker));
    blocker.record_connection_attempt_at(offender(), 5 * NANOS_PER_SECOND);
    assert!(!both(&blocker));
    blocker.cleanup_expired_blocks_at(5 * NANOS_PER_SECOND);
    assert!(!both(&blocker));
    for t in 6..9u128 {
        blocker.record_connection_attempt_at(offender(), t * NANOS_PER_SECOND);
        assert!(!both(&blocker));
    }
    assert!(blocker.block_entry(&offender()).is_some());
    blocker.unblock_ip(offender()).unwrap();
    assert!(!both(&blocker));
}

#[test]
fn counts_are_kept_apart_by_address() {
    let mut blocker = Blocker::new(&config(3, 10));
    let other = IpAddress::v4(198, 51, 100, 1);
    blocker.record_connection_attempt_at(offender(), 0);
    blocker.record_connection_attempt_at(other, 0);
    blocker.record_connection_attempt_at(offender(), 0);
    assert_eq!(blocker.attempt_count(&offender()), 2);
    assert_eq!(blocker.attempt_count(&other), 1);
    blocker.record_connection_attempt_at(offender(), 0);
    assert!(blocker.is_blocked_at(&offender(), 0));
    assert!(!blocker.is_blocked_at(&other, 0));
    assert_eq!(blocker.attempt_count(&other), 1);
}

#[test]
fn v4_and_v6_of_equal_value_are_kept_apart() {
    let mut blocker = Blocker::new(&config(3, 10));
    assert_eq!(blocker.block_ip_at(IpAddress::V4(5), None, 0), Ok(()));
    assert!(blocker.is_blocked_at(&IpAddress::V4(5), 0));
    assert!(!blocker.is_blocked_at(&IpAddress::V6(5), 0));
    assert_eq!(blocker.unblock_ip(IpAddress::V6(5)), Err(FirewallError::NotBlocked));
}

#[test]
fn disabled_blocker_reports_nothing_and_counts_nothing() {
    let mut blocker = Blocker::new(&BlocklistConfig {
        enabled: false,
        auto_block_threshold: 1,
        block_duration: 60,
        whitelist: Vec::new(),
    });
    assert!(!blocker.is_enabled());
    blocker.record_connection_attempt_at(offender(), 0);
    assert_eq!(blocker.attempt_count(&offender()), 0);
    assert_eq!(blocker.block_entry(&offender()), None);
    // A manual block is taken, but does not show while the blocker is off.
    assert_eq!(blocker.block_ip_at(offender(), None, 0), Ok(()));
    assert!(blocker.block_entry(&offender()).is_some());
    assert!(!blocker.is_blocked_at(&offender(), 0));
}

#[test]
fn permanent_block_survives_cleanup() {
    let mut blocker = Blocker::new(&config(5, 3600));
    assert_eq!(blocker.block_ip_at(offender(), None, 100), Ok(()));
    blocker.cleanup_expired_blocks_at(100);
    assert!(blocker.is_blocked_at(&offender(), 100));
    blocker.cleanup_expired_blocks_at(u128::MAX);
    assert!(blocker.is_blocked_at(&offender(), u128::MAX));
    assert_eq!(blocker.block_entry(&offender()), Some(BlockEntry { start: 100, duration: None }));
}

#[test]
fn timed_block_expires_and_cleanup_removes_it() {
    let mut blocker = Blocker::new(&config(5, 3600));
    assert_eq!(blocker.block_ip_at(offender(), Some(30), 1000), Ok(()));
    assert!(blocker.is_blocked_at(&offender(), 1000));
    assert!(blocker.is_blocked_at(&offender(), 1000 + 30 * NANOS_PER_SECOND - 1));
    assert!(!blocker.is_blocked_at(&offender(), 1000 + 30 * NANOS_PER_SECOND));
    blocker.cleanup_expired_blocks_at(1000 + 30 * NANOS_PER_SECOND - 1);
    assert!(blocker.block_entry(&offender()).is_some());
    blocker.cleanup_expired_blocks_at(1000 + 30 * NANOS_PER_SECOND);
    assert_eq!(blocker.block_entry(&offender()), None);
    assert!(!blocker.is_blocked_at(&offender(), 1000));
    assert!(!blocker.is_blocked_at(&offender(), 1000 + 30 * NANOS_PER_SECOND));
}

#[test]
fn cleanup_keeps_what_holds_and_drops_the_rest() {
    let mut blocker = Blocker::new(&config(5, 3600));
    let a = IpAddress::v4(1, 1, 1, 1);
    let b = IpAddress::v4(2, 2, 2, 2);
    let c = IpAddress::V6(77);
    let d = IpAddress::V6(78);
    blocker.block_ip_at(a, Some(10), 0).unwrap();
    blocker.block_ip_at(b, Some(20), 0).unwrap();
    blocker.block_ip_at(c, Some(5), 0).unwrap();
    blocker.block_ip_at(d, None, 0).unwrap();
    blocker.cleanup_expired_blocks_at(10 * NANOS_PER_SECOND);
    assert_eq!(blocker.block_entry(&a), None);
    assert_eq!(blocker.block_entry(&b), Some(BlockEntry { start: 0, duration: Some(20) }));
    assert_eq!(blocker.block_entry(&c), None);
    assert_eq!(blocker.block_entry(&d), Some(BlockEntry { start: 0, duration: None }));
}

#[test]
fn is_blocked_does_not_expire_entries() {
    let mut blocker = Blocker::new(&config(5, 3600));
    blocker.block_ip_at(offender(), Some(1), 0).unwrap();
    assert!(!blocker.is_blocked_at(&offender(), 2 * NANOS_PER_SECOND));
    assert!(blocker.block_entry(&offender()).is_some());
    assert_eq!(blocker.unblock_ip(offender()), Ok(()));
}

#[test]
fn manual_block_overwrites_and_discards_the_count() {
    let mut blocker = Blocker::new(&config(5, 3600));
    blocker.record_connection_attempt_at(offender(), 0);
    blocker.record_connection_attempt_at(offender(), 1);
    assert_eq!(blocker.attempt_count(&offender()), 2);
    assert_eq!(blocker.block_ip_at(offender(), Some(7), 2), Ok(()));
    assert_eq!(blocker.attempt_count(&offender()), 0);
    assert_eq!(blocker.block_entry(&offender()), Some(BlockEntry { start: 2, duration: Some(7) }));
    assert_eq!(blocker.block_ip_at(offender(), None, 3), Ok(()));
    assert_eq!(blocker.block_entry(&offender()), Some(BlockEntry { start: 3, duration: None }));
}

#[test]
fn unblock_removes_and_refuses_what_is_not_blocked() {
    let mut blocker = Blocker::new(&config(5, 3600));
    assert_eq!(blocker.unblock_ip(offender()), Err(FirewallError::NotBlocked));
    blocker.block_ip_at(offender(), None, 0).unwrap();
    assert_eq!(blocker.unblock_ip(offender()), Ok(()));
    assert!(!blocker.is_blocked_at(&offender(), 0));
    assert_eq!(blocker.unblock_ip(offender()), Err(FirewallError::NotBlocked));
}

#[test]
fn unblocked_address_restarts_clean() {
    let mut blocker = Blocker::new(&config(5, 1));
    blocker.record_connection_attempt_at(offender(), 0);
    blocker.record_connection_attempt_at(offender(), 1);
    blocker.block_ip_at(offender(), Some(1), 2).unwrap();
    // The block has run out; attempts are still passed over.
    blocker.record_connection_attempt_at(offender(), 2 * NANOS_PER_SECOND + 2);
    blocker.record_connection_attempt_at(offender(), 3 * NANOS_PER_SECOND);
    assert_eq!(blocker.attempt_count(&offender()), 0);
    assert_eq!(blocker.unblock_ip(offender()), Ok(()));
    assert_eq!(blocker.attempt_count(&offender()), 0);
    assert_eq!(blocker.block_entry(&offender()), None);
    // From here it counts like an address never seen.
    blocker.record_connection_attempt_at(offender(), 4 * NANOS_PER_SECOND);
    assert_eq!(blocker.attempt_count(&offender()), 1);
}

#[test]
fn unblock_touches_no_other_count() {
    let mut blocker = Blocker::new(&config(5, 1));
    let other = IpAddress::v4(198, 51, 100, 3);
    blocker.record_connection_attempt_at(other, 0);
    blocker.block_ip_at(offender(), None, 0).unwrap();
    assert_eq!(blocker.unblock_ip(offender()), Ok(()));
    assert_eq!(blocker.attempt_count(&other), 1);
}

#[test]
fn clock_driven_operations() {
    let mut blocker = Blocker::new(&config(2, 3600));
    assert_eq!(blocker.block_ip(offender(), Some(3600)), Ok(()));
    assert!(blocker.is_blocked(&offender()));
    blocker.cleanup_expired_blocks();
    assert!(blocker.is_blocked(&offender()));
    assert_eq!(blocker.unblock_ip(offender()), Ok(()));
    assert!(!blocker.is_blocked(&offender()));
    // A block of no seconds has run out as soon as it is made.
    assert_eq!(blocker.block_ip(offender(), Some(0)), Ok(()));
    assert!(!blocker.is_blocked(&offender()));
    blocker.cleanup_expired_blocks();
    assert_eq!(blocker.block_entry(&offender()), None);
    let other = IpAddress::v4(198, 51, 100, 2);
    blocker.record_connection_attempt(other);
    assert_eq!(blocker.attempt_count(&other), 1);
    blocker.record_connection_attempt(other);
    assert!(blocker.is_blocked(&other));
}

#[test]
fn clock_does_not_run_backwards() {
    let blocker = Blocker::new(&config(2, 3600));
    let first = blocker.now();
    let second = blocker.now();
    assert!(first <= second);
}

#[test]
fn clone_copies_state_and_then_goes_its_own_way() {
    let mut blocker = Blocker::new(&config(3, 3600));
    blocker.record_connection_attempt_at(offender(), 0);
    blocker.block_ip_at(IpAddress::V6(9), None, 0).unwrap();
    let mut copy = blocker.clone();
    assert_eq!(copy.attempt_count(&offender()), 1);
    assert!(copy.is_blocked_at(&IpAddress::V6(9), 5));
    assert!(copy.is_whitelisted(&IpAddress::v4(127, 0, 0, 1)));
    assert!(copy.is_whitelisted(&IpAddress::V6(1)));
    assert!(!copy.is_whitelisted(&offender()));
    copy.record_connection_attempt_at(offender(), 1);
    assert_eq!(copy.attempt_count(&offender()), 2);
    assert_eq!(blocker.attempt_count(&offender()), 1);
}
