use guild_warden::audit::Category;
use guild_warden::ledger::{Cooldown, CooldownLedger, ViolationLedger, COOLDOWN_SECS, RESET_INTERVAL_SECS};

#[test]
fn ledger_constants() {
    assert_eq!(COOLDOWN_SECS, 1800);
    assert_eq!(RESET_INTERVAL_SECS, 600);
}

#[test]
fn only_the_violation_ledgers_reset_periodically() {
    assert_eq!(Category::ChannelCreation.reset_interval(), Some(600));
    assert_eq!(Category::MemberRemoval.reset_interval(), Some(600));
    assert_eq!(Category::ConfessionSubmission.reset_interval(), None);
}

#[test]
fn new_violation_ledger_counts_nothing() {
    let ledger = ViolationLedger::new();
    assert_eq!(ledger.count(1), 0);
    assert_eq!(ledger.count(u64::MAX), 0);
}

#[test]
fn record_and_get_counts_from_one() {
    let mut ledger = ViolationLedger::new();
    for expected in 1..=12usize {
        assert_eq!(ledger.record_and_get(7), expected);
        assert_eq!(ledger.count(7), expected);
    }
}

#[test]
fn record_and_get_keeps_accounts_apart() {
    let mut ledger = ViolationLedger::new();
    assert_eq!(ledger.record_and_get(1), 1);
    assert_eq!(ledger.record_and_get(2), 1);
    assert_eq!(ledger.record_and_get(1), 2);
    assert_eq!(ledger.record_and_get(1), 3);
    assert_eq!(ledger.record_and_get(2), 2);
    assert_eq!(ledger.count(1), 3);
    assert_eq!(ledger.count(2), 2);
    assert_eq!(ledger.count(3), 0);
}

#[test]
fn reset_all_restarts_every_count_at_one() {
    let mut ledger = ViolationLedger::new();
    for _ in 0..9 {
        ledger.record_and_get(1);
    }
    ledger.record_and_get(2);
    ledger.reset_all();
    assert_eq!(ledger.count(1), 0);
    assert_eq!(ledger.count(2), 0);
    assert_eq!(ledger.record_and_get(1), 1);
    assert_eq!(ledger.record_and_get(2), 1);
    assert_eq!(ledger.record_and_get(3), 1);
}

#[test]
fn reset_all_of_an_empty_ledger_is_harmless() {
    let mut ledger = ViolationLedger::new();
    ledger.reset_all();
    assert_eq!(ledger.record_and_get(1), 1);
}

#[test]
fn unrecorded_account_is_ready() {
    let ledger = CooldownLedger::new();
    assert_eq!(ledger.last_accepted(1), None);
    assert_eq!(ledger.check(1, 0), Cooldown::Ready);
    assert_eq!(ledger.check(1, i64::MIN), Cooldown::Ready);
    assert_eq!(ledger.check(1, i64::MAX), Cooldown::Ready);
}

#[test]
fn cooldown_lasts_thirty_minutes() {
    let mut ledger = CooldownLedger::new();
    ledger.record(1, 1_000_000);
    assert_eq!(ledger.last_accepted(1), Some(1_000_000));
    assert_eq!(ledger.check(1, 1_000_000), Cooldown::Waiting { remaining: 1800 });
    assert_eq!(ledger.check(1, 1_000_001), Cooldown::Waiting { remaining: 1799 });
    assert_eq!(ledger.check(1, 1_000_600), Cooldown::Waiting { remaining: 1200 });
    assert_eq!(ledger.check(1, 1_001_799), Cooldown::Waiting { remaining: 1 });
    assert_eq!(ledger.check(1, 1_001_800), Cooldown::Ready);
    assert_eq!(ledger.check(1, 1_001_801), Cooldown::Ready);
    assert_eq!(ledger.check(1, i64::MAX), Cooldown::Ready);
}

#[test]
fn checking_does_not_record() {
    let mut ledger = CooldownLedger::new();
    ledger.record(1, 5_000);
    assert_eq!(ledger.check(1, 5_100), Cooldown::Waiting { remaining: 1700 });
    assert_eq!(ledger.last_accepted(1), Some(5_000));
    assert_eq!(ledger.check(1, 9_000), Cooldown::Ready);
    assert_eq!(ledger.last_accepted(1), Some(5_000));
    assert_eq!(ledger.check(2, 5_100), Cooldown::Ready);
    assert_eq!(ledger.last_accepted(2), None);
}

#[test]
fn cooldown_is_per_account() {
    let mut ledger = CooldownLedger::new();
    ledger.record(1, 5_000);
    assert_eq!(ledger.check(2, 5_001), Cooldown::Ready);
    ledger.record(2, 5_001);
    assert_eq!(ledger.check(1, 6_000), Cooldown::Waiting { remaining: 800 });
    assert_eq!(ledger.check(2, 6_000), Cooldown::Waiting { remaining: 801 });
}

#[test]
fn record_replaces_the_stored_time() {
    let mut ledger = CooldownLedger::new();
    ledger.record(1, 5_000);
    ledger.record(1, 9_000);
    assert_eq!(ledger.last_accepted(1), Some(9_000));
    assert_eq!(ledger.check(1, 9_100), Cooldown::Waiting { remaining: 1700 });
}

#[test]
fn clock_behind_the_stored_time_waits_longer() {
    let mut ledger = CooldownLedger::new();
    ledger.record(1, 5_000);
    assert!(ledger.can_check(1, 4_000));
    assert_eq!(ledger.check(1, 4_000), Cooldown::Waiting { remaining: 2800 });
    assert_eq!(ledger.check(1, -5_000), Cooldown::Waiting { remaining: 11_800 });
}

#[test]
fn can_check_refuses_only_what_does_not_fit() {
    let mut ledger = CooldownLedger::new();
    assert!(ledger.can_check(1, i64::MIN));
    ledger.record(1, i64::MAX);
    assert!(!ledger.can_check(1, i64::MIN));
    assert!(!ledger.can_check(1, i64::MIN + 1799));
    assert!(ledger.can_check(1, i64::MIN + 1800));
    assert_eq!(ledger.check(1, i64::MIN + 1800), Cooldown::Waiting { remaining: u64::MAX });
    assert!(ledger.can_check(1, 0));
    assert!(ledger.can_check(2, i64::MIN));
    ledger.record(3, i64::MIN);
    assert!(ledger.can_check(3, i64::MAX));
    assert_eq!(ledger.check(3, i64::MAX), Cooldown::Ready);
}

#[test]
fn cooldown_reset_forgets_everyone() {
    let mut ledger = CooldownLedger::new();
    ledger.record(1, 5_000);
    ledger.record(2, 5_000);
    ledger.reset_all();
    assert_eq!(ledger.last_accepted(1), None);
    assert_eq!(ledger.check(1, 5_001), Cooldown::Ready);
    assert_eq!(ledger.check(2, 5_001), Cooldown::Ready);
}
