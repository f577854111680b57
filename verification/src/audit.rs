//! The audit correlator: which audit-trail entry stands behind an event.
//!
//! The platform reports that a channel appeared or that a member left, but
//! not who did it. The audit trail knows, so every such event is matched
//! against the entries fetched right after it: the newest entry with an
//! accepted action and the event's target names the responsible account.

use vstd::prelude::*;
use crate::snowflake::{snowflake_time, snowflake_to_time};

verus! {

/// How many audit-trail entries are fetched for one correlation.
pub const AUDIT_LOOKBACK: u8 = 5;

/// What an audit-trail entry records, as far as correlation cares.
#[derive(Clone, Copy, Debug, PartialEq, Eq, Structural)]
pub enum ActionKind {
    /// A channel was created.
    ChannelCreate,
    /// A member was kicked.
    Kick,
    /// A member was banned.
    BanAdd,
    /// Anything else.
    Other,
}

/// The kinds of behaviour that are tracked per account.
#[derive(Clone, Copy, Debug, PartialEq, Eq, Structural)]
pub enum Category {
    /// Creating channels.
    ChannelCreation,
    /// Kicking or banning members.
    MemberRemoval,
    /// Sending confessions through the relay.
    ConfessionSubmission,
}

/// One entry of the audit trail.
#[derive(Clone, Copy, Debug, PartialEq, Eq)]
pub struct AuditEntry {
    /// The entry's own snowflake; its issuing time derives from it.
    pub id: u64,
    /// What was done.
    pub action: ActionKind,
    /// The account that did it.
    pub user_id: u64,
    /// The entity it was done to, if the platform names one.
    pub target_id: Option<u64>,
}

impl Category {
    /// Whether an audit entry with `action` can account for an event of this
    /// category. A member removal is either a kick or a ban; confessions
    /// leave no audit trail.
    pub open spec fn spec_accepts(self, action: ActionKind) -> bool {
        match self {
            Category::ChannelCreation => action is ChannelCreate,
            Category::MemberRemoval => action is Kick || action is BanAdd,
            Category::ConfessionSubmission => false,
        }
    }

    /// Whether an audit entry with `action` can account for an event of this
    /// category.
    #[verifier::when_used_as_spec(spec_accepts)]
    pub fn accepts(self, action: ActionKind) -> (accepted: bool)
        ensures
            accepted == self.spec_accepts(action),
    {
        match self {
            Category::ChannelCreation => match action {
                ActionKind::ChannelCreate => true,
                _ => false,
            },
            Category::MemberRemoval => match action {
                ActionKind::Kick => true,
                ActionKind::BanAdd => true,
                _ => false,
            },
            Category::ConfessionSubmission => false,
        }
    }
}

impl AuditEntry {
    /// When the entry was issued, in milliseconds since the Unix epoch.
    pub open spec fn spec_issued_at(&self) -> int {
        snowflake_time(self.id)
    }

    /// When the entry was issued, in milliseconds since the Unix epoch.
    pub fn issued_at(&self) -> (time: u64)
        ensures
            time == self.spec_issued_at(),
    {
        snowflake_to_time(self.id)
    }

    /// Whether the entry accounts for an event of `category` on `target_id`:
    /// its action is one the category accepts and it names that target.
    pub open spec fn spec_qualifies(&self, target_id: u64, category: Category) -> bool {
        category.spec_accepts(self.action) && self.target_id == Some(target_id)
    }

    /// Whether the entry accounts for an event of `category` on `target_id`.
    #[verifier::when_used_as_spec(spec_qualifies)]
    pub fn qualifies(&self, target_id: u64, category: Category) -> (matched: bool)
        ensures
            matched == self.spec_qualifies(target_id, category),
    {
        category.accepts(self.action) && match self.target_id {
            Some(target) => target == target_id,
            None => false,
        }
    }
}

/// `entries[i]` is read before `entries[j]` when the trail is read newest
/// first. Entries issued in the same millisecond are read in the reverse of
/// the order in which they were fetched.
pub open spec fn precedes(entries: Seq<AuditEntry>, i: int, j: int) -> bool {
    let a = entries[i].spec_issued_at();
    let b = entries[j].spec_issued_at();
    a > b || (a == b && i > j)
}

/// `order` lists every position of `entries` exactly once, newest first.
pub open spec fn is_newest_first(entries: Seq<AuditEntry>, order: Seq<usize>) -> bool {
    &&& order.len() == entries.len()
    &&& forall|k: int| 0 <= k < order.len() ==> (#[trigger] order[k]) < entries.len()
    &&& forall|k: int, l: int|
        0 <= k < l < order.len() ==> precedes(
            entries,
            (#[trigger] order[k]) as int,
            (#[trigger] order[l]) as int,
        )
    &&& forall|i: usize| i < entries.len() ==> #[trigger] order.contains(i)
}

/// `entries[i]` qualifies for the event and is read before every other
/// qualifying entry.
pub open spec fn is_newest_match(
    entries: Seq<AuditEntry>,
    i: int,
    target_id: u64,
    category: Category,
) -> bool {
    &&& 0 <= i < entries.len()
    &&& entries[i].spec_qualifies(target_id, category)
    &&& forall|j: int|
        0 <= j < entries.len() && j != i && (#[trigger] entries[j]).spec_qualifies(
            target_id,
            category,
        ) ==> precedes(entries, i, j)
}

/// The entry that accounts for an event of `category` on `target_id`: the
/// newest qualifying one, or none where no entry qualifies.
pub open spec fn newest_match(
    entries: Seq<AuditEntry>,
    target_id: u64,
    category: Category,
) -> Option<AuditEntry> {
    if exists|i: int| is_newest_match(entries, i, target_id, category) {
        Some(entries[choose|i: int| is_newest_match(entries, i, target_id, category)])
    } else {
        None
    }
}

/// Orders the positions of `entries` by issuing time, newest first. The
/// order in which the platform returned the entries is not trusted.
pub fn newest_first(entries: &Vec<AuditEntry>) -> (order: Vec<usize>)
    ensures
        is_newest_first(entries@, order@),
{
    let mut order: Vec<usize> = Vec::new();
    let mut next: usize = 0;
    while next < entries.len()
        invariant
            next <= entries.len(),
            order.len() == next,
            forall|k: int| 0 <= k < order.len() ==> (#[trigger] order[k]) < next,
            forall|k: int, l: int|
                0 <= k < l < order.len() ==> precedes(
                    entries@,
                    (#[trigger] order[k]) as int,
                    (#[trigger] order[l]) as int,
                ),
            forall|i: usize| i < next ==> #[trigger] order@.contains(i),
        decreases entries.len() - next,
    {
        let time: u64 = entries[next].issued_at();
        let mut at: usize = 0;
        while at < order.len() && entries[order[at]].issued_at() > time
            invariant
                at <= order.len(),
                next < entries.len(),
                time == entries[next as int].spec_issued_at(),
                forall|k: int| 0 <= k < order.len() ==> (#[trigger] order[k]) < next,
                forall|k: int|
                    0 <= k < at ==> entries[(#[trigger] order[k]) as int].spec_issued_at() > time,
            decreases order.len() - at,
        {
            at += 1;
        }
        let ghost before = order@;
        order.insert(at, next);
        proof {
            let after = order@;
            assert forall|k: int, l: int| 0 <= k < l < after.len() implies precedes(
                entries@,
                (#[trigger] after[k]) as int,
                (#[trigger] after[l]) as int,
            ) by {
                if l < at {
                    assert(after[k] == before[k] && after[l] == before[l]);
                } else if l == at {
                    assert(after[k] == before[k]);
                } else if k < at {
                    assert(after[k] == before[k] && after[l] == before[l - 1]);
                } else if k == at {
                    assert(after[l] == before[l - 1]);
                    if at < l - 1 {
                        assert(precedes(entries@, before[at as int] as int, before[l - 1] as int));
                    }
                } else {
                    assert(after[k] == before[k - 1] && after[l] == before[l - 1]);
                }
            }
            assert forall|i: usize| i < next + 1 implies #[trigger] after.contains(i) by {
                if i == next {
                    assert(after[at as int] == i);
                } else {
                    assert(before.contains(i));
                    let k = choose|k: int| 0 <= k < before.len() && before[k] == i;
                    if k < at {
                        assert(after[k] == i);
                    } else {
                        assert(after[k + 1] == i);
                    }
                }
            }
        }
        next += 1;
    }
    order
}

/// Resolves the audit entry that accounts for an event of `category` on
/// `target_id`. The entries are read newest first and the first one that
/// qualifies is returned; an event that no entry accounts for resolves to
/// `None` and is to be dropped without further ado.
pub fn resolve_actor(
    entries: &Vec<AuditEntry>,
    target_id: u64,
    category: Category,
) -> (found: Option<AuditEntry>)
    ensures
        found == newest_match(entries@, target_id, category),
{
    let order = newest_first(entries);
    let mut at: usize = 0;
    while at < order.len()
        invariant
            at <= order.len(),
            is_newest_first(entries@, order@),
            forall|k: int|
                0 <= k < at ==> !entries[(#[trigger] order[k]) as int].spec_qualifies(
                    target_id,
                    category,
                ),
        decreases order.len() - at,
    {
        let entry = entries[order[at]];
        if entry.qualifies(target_id, category) {
            proof {
                let i = order[at as int] as int;
                assert forall|j: int|
                    0 <= j < entries.len() && j != i && (#[trigger] entries[j]).spec_qualifies(
                        target_id,
                        category,
                    ) implies precedes(entries@, i, j) by {
                    assert(order@.contains(j as usize));
                    let l = choose|l: int| 0 <= l < order.len() && order[l] == j as usize;
                    assert(at < l);
                }
                assert(is_newest_match(entries@, i, target_id, category));
                lemma_newest_match_unique(
                    entries@,
                    i,
                    choose|i: int| is_newest_match(entries@, i, target_id, category),
                    target_id,
                    category,
                );
            }
            return Some(entry);
        }
        at += 1;
    }
    proof {
        assert forall|i: int| !is_newest_match(entries@, i, target_id, category) by {
            if 0 <= i < entries.len() {
                assert(order@.contains(i as usize));
            }
        }
    }
    None
}

/// No two entries are both the newest match: reading newest first puts any
/// two positions in one order only.
pub proof fn lemma_newest_match_unique(
    entries: Seq<AuditEntry>,
    i: int,
    j: int,
    target_id: u64,
    category: Category,
)
    requires
        is_newest_match(entries, i, target_id, category),
        is_newest_match(entries, j, target_id, category),
    ensures
        i == j,
{
    if i != j {
        assert(precedes(entries, i, j));
        assert(precedes(entries, j, i));
    }
}

/// Among the first `upto` entries, if any qualifies then one of them is read
/// before all the other qualifying ones.
proof fn lemma_newest_among(
    entries: Seq<AuditEntry>,
    upto: int,
    target_id: u64,
    category: Category,
) -> (best: int)
    requires
        0 <= upto <= entries.len(),
        exists|j: int| 0 <= j < upto && (#[trigger] entries[j]).spec_qualifies(target_id, category),
    ensures
        0 <= best < upto,
        entries[best].spec_qualifies(target_id, category),
        forall|j: int|
            0 <= j < upto && j != best && (#[trigger] entries[j]).spec_qualifies(
                target_id,
                category,
            ) ==> precedes(entries, best, j),
    decreases upto,
{
    let last = upto - 1;
    if exists|j: int| 0 <= j < last && (#[trigger] entries[j]).spec_qualifies(target_id, category) {
        let earlier = lemma_newest_among(entries, last, target_id, category);
        if entries[last].spec_qualifies(target_id, category) && !precedes(entries, earlier, last) {
            last
        } else {
            earlier
        }
    } else {
        last
    }
}

/// Correlation selects the newest qualifying entry. It finds an entry
/// exactly when some entry qualifies, the entry found is one of the trail
/// and qualifies, and no qualifying entry was issued after it.
pub proof fn lemma_newest_match_is_newest(
    entries: Seq<AuditEntry>,
    target_id: u64,
    category: Category,
)
    ensures
        newest_match(entries, target_id, category) is Some <==> exists|j: int|
            0 <= j < entries.len() && (#[trigger] entries[j]).spec_qualifies(target_id, category),
        newest_match(entries, target_id, category) matches Some(found) ==> {
            &&& entries.contains(found)
            &&& found.spec_qualifies(target_id, category)
            &&& forall|j: int|
                0 <= j < entries.len() && (#[trigger] entries[j]).spec_qualifies(
                    target_id,
                    category,
                ) ==> entries[j].spec_issued_at() <= found.spec_issued_at()
        },
{
    if exists|j: int|
        0 <= j < entries.len() && (#[trigger] entries[j]).spec_qualifies(target_id, category) {
        let best = lemma_newest_among(entries, entries.len() as int, target_id, category);
        assert(is_newest_match(entries, best, target_id, category));
    }
    if exists|i: int| is_newest_match(entries, i, target_id, category) {
        let i = choose|i: int| is_newest_match(entries, i, target_id, category);
        assert(entries[i].spec_qualifies(target_id, category));
    }
}

/// The order in which the entries were fetched does not matter, as long as
/// no two different qualifying entries were issued in the same millisecond:
/// two trails that hold the same entries resolve to the same one.
pub proof fn lemma_fetch_order_is_immaterial(
    fetched: Seq<AuditEntry>,
    shuffled: Seq<AuditEntry>,
    target_id: u64,
    category: Category,
)
    requires
        forall|entry: AuditEntry| fetched.contains(entry) <==> shuffled.contains(entry),
        forall|i: int, j: int|
            {
                &&& 0 <= i < fetched.len()
                &&& 0 <= j < fetched.len()
                &&& (#[trigger] fetched[i]).spec_qualifies(target_id, category)
                &&& (#[trigger] fetched[j]).spec_qualifies(target_id, category)
                &&& fetched[i].spec_issued_at() == fetched[j].spec_issued_at()
            } ==> fetched[i] == fetched[j],
    ensures
        newest_match(fetched, target_id, category) == newest_match(shuffled, target_id, category),
{
    lemma_newest_match_is_newest(fetched, target_id, category);
    lemma_newest_match_is_newest(shuffled, target_id, category);
    match newest_match(fetched, target_id, category) {
        Some(first) => {
            assert(shuffled.contains(first));
            let k = choose|k: int| 0 <= k < shuffled.len() && shuffled[k] == first;
            assert(shuffled[k].spec_qualifies(target_id, category));
            let second = newest_match(shuffled, target_id, category)->0;
            assert(fetched.contains(second));
            let i = choose|i: int| 0 <= i < fetched.len() && fetched[i] == first;
            let j = choose|j: int| 0 <= j < fetched.len() && fetched[j] == second;
            assert(fetched[j].spec_qualifies(target_id, category));
            assert(fetched[i].spec_issued_at() == fetched[j].spec_issued_at());
        },
        None => {
            if newest_match(shuffled, target_id, category) is Some {
                let second = newest_match(shuffled, target_id, category)->0;
                assert(fetched.contains(second));
                let j = choose|j: int| 0 <= j < fetched.len() && fetched[j] == second;
                assert(fetched[j].spec_qualifies(target_id, category));
            }
        },
    }
}

/// A kick and a ban account for a member removal alike: which of the two an
/// entry records makes no difference to whether it qualifies.
pub proof fn lemma_kick_and_ban_alike(entry: AuditEntry, target_id: u64)
    ensures
        (AuditEntry { action: ActionKind::Kick, ..entry }).spec_qualifies(
            target_id,
            Category::MemberRemoval,
        ) == (AuditEntry { action: ActionKind::BanAdd, ..entry }).spec_qualifies(
            target_id,
            Category::MemberRemoval,
        ),
{
}

} // verus!
