use guild_warden::audit::{newest_first, resolve_actor, ActionKind, AuditEntry, Category, AUDIT_LOOKBACK};

const MS: u64 = 1 << 22;

fn entry(id: u64, action: ActionKind, user_id: u64, target_id: Option<u64>) -> AuditEntry {
    AuditEntry { id, action, user_id, target_id }
}

#[test]
fn lookback_is_five_entries() {
    assert_eq!(AUDIT_LOOKBACK, 5);
}

#[test]
fn channel_creation_accepts_only_channel_create() {
    assert!(Category::ChannelCreation.accepts(ActionKind::ChannelCreate));
    assert!(!Category::ChannelCreation.accepts(ActionKind::Kick));
    assert!(!Category::ChannelCreation.accepts(ActionKind::BanAdd));
    assert!(!Category::ChannelCreation.accepts(ActionKind::Other));
}

#[test]
fn member_removal_accepts_kick_and_ban() {
    assert!(Category::MemberRemoval.accepts(ActionKind::Kick));
    assert!(Category::MemberRemoval.accepts(ActionKind::BanAdd));
    assert!(!Category::MemberRemoval.accepts(ActionKind::ChannelCreate));
    assert!(!Category::MemberRemoval.accepts(ActionKind::Other));
}

#[test]
fn confession_submission_accepts_nothing() {
    for action in [ActionKind::ChannelCreate, ActionKind::Kick, ActionKind::BanAdd, ActionKind::Other] {
        assert!(!Category::ConfessionSubmission.accepts(action));
    }
}

#[test]
fn entry_time_derives_from_its_id() {
    let e = entry(7 * MS + 3, ActionKind::Other, 1, None);
    assert_eq!(e.issued_at(), 1_420_070_400_007);
}

#[test]
fn entry_qualifies_on_action_and_target() {
    let e = entry(MS, ActionKind::Kick, 1, Some(42));
    assert!(e.qualifies(42, Category::MemberRemoval));
    assert!(!e.qualifies(43, Category::MemberRemoval));
    assert!(!e.qualifies(42, Category::ChannelCreation));
    assert!(!e.qualifies(42, Category::ConfessionSubmission));
}

#[test]
fn entry_without_target_never_qualifies() {
    let e = entry(MS, ActionKind::ChannelCreate, 1, None);
    assert!(!e.qualifies(0, Category::ChannelCreation));
    assert!(!e.qualifies(42, Category::ChannelCreation));
}

#[test]
fn newest_first_of_nothing_is_empty() {
    assert_eq!(newest_first(&Vec::new()), Vec::<usize>::new());
}

#[test]
fn newest_first_orders_by_time_descending() {
    let entries = vec![
        entry(3 * MS, ActionKind::Other, 1, None),
        entry(9 * MS, ActionKind::Other, 1, None),
        entry(MS, ActionKind::Other, 1, None),
        entry(5 * MS, ActionKind::Other, 1, None),
    ];
    assert_eq!(newest_first(&entries), vec![1, 3, 0, 2]);
}

#[test]
fn newest_first_reads_ties_in_reverse_fetch_order() {
    let entries = vec![
        entry(5 * MS, ActionKind::Other, 1, None),
        entry(5 * MS + 1, ActionKind::Other, 2, None),
        entry(8 * MS, ActionKind::Other, 3, None),
        entry(5 * MS + 2, ActionKind::Other, 4, None),
    ];
    assert_eq!(newest_first(&entries), vec![2, 3, 1, 0]);
}

#[test]
fn resolve_actor_picks_the_newest_of_two_matches() {
    let t1 = entry(10 * MS, ActionKind::ChannelCreate, 100, Some(7));
    let t2 = entry(20 * MS, ActionKind::ChannelCreate, 200, Some(7));
    let t3 = entry(30 * MS, ActionKind::ChannelCreate, 300, Some(7));
    for entries in [
        vec![t1, t2, t3],
        vec![t3, t2, t1],
        vec![t2, t3, t1],
        vec![t3, t1, t2],
    ] {
        assert_eq!(resolve_actor(&entries, 7, Category::ChannelCreation), Some(t3));
    }
}

#[test]
fn resolve_actor_skips_newer_entries_that_do_not_match() {
    let old_match = entry(10 * MS, ActionKind::ChannelCreate, 100, Some(7));
    let other_target = entry(20 * MS, ActionKind::ChannelCreate, 200, Some(8));
    let other_action = entry(30 * MS, ActionKind::Kick, 300, Some(7));
    let no_target = entry(40 * MS, ActionKind::ChannelCreate, 400, None);
    let entries = vec![no_target, other_action, old_match, other_target];
    assert_eq!(resolve_actor(&entries, 7, Category::ChannelCreation), Some(old_match));
}

#[test]
fn resolve_actor_finds_nothing_in_an_empty_trail() {
    assert_eq!(resolve_actor(&Vec::new(), 7, Category::ChannelCreation), None);
}

#[test]
fn resolve_actor_finds_nothing_without_a_match() {
    let entries = vec![
        entry(10 * MS, ActionKind::ChannelCreate, 100, Some(8)),
        entry(20 * MS, ActionKind::Kick, 200, Some(7)),
        entry(30 * MS, ActionKind::Other, 300, Some(7)),
    ];
    assert_eq!(resolve_actor(&entries, 7, Category::ChannelCreation), None);
    assert_eq!(resolve_actor(&entries, 7, Category::ConfessionSubmission), None);
}

#[test]
fn resolve_actor_takes_kick_or_ban_for_a_removal() {
    let kick = entry(10 * MS, ActionKind::Kick, 100, Some(7));
    let ban = entry(20 * MS, ActionKind::BanAdd, 200, Some(7));
    assert_eq!(resolve_actor(&vec![kick, ban], 7, Category::MemberRemoval), Some(ban));
    assert_eq!(resolve_actor(&vec![kick], 7, Category::MemberRemoval), Some(kick));
    let later_kick = entry(30 * MS, ActionKind::Kick, 300, Some(7));
    assert_eq!(resolve_actor(&vec![later_kick, ban], 7, Category::MemberRemoval), Some(later_kick));
}

#[test]
fn resolve_actor_breaks_a_tie_by_the_later_fetched_entry() {
    let first = entry(10 * MS, ActionKind::Kick, 100, Some(7));
    let second = entry(10 * MS + 5, ActionKind::Kick, 200, Some(7));
    assert_eq!(resolve_actor(&vec![first, second], 7, Category::MemberRemoval), Some(second));
    assert_eq!(resolve_actor(&vec![second, first], 7, Category::MemberRemoval), Some(first));
}

#[test]
fn resolve_actor_reads_more_than_the_usual_window() {
    let mut entries = Vec::new();
    for i in 0..40u64 {
        entries.push(entry((i * 7 % 40) * MS, ActionKind::ChannelCreate, i, Some(i % 3)));
    }
    let found = resolve_actor(&entries, 1, Category::ChannelCreation).unwrap();
    let best = entries
        .iter()
        .filter(|e| e.target_id == Some(1))
        .max_by_key(|e| e.id)
        .unwrap();
    assert_eq!(found, *best);
}
