//! The ledgers: what every account did in the current epoch.
//!
//! A [`ViolationLedger`] counts the attributed events of one category per
//! account. A [`CooldownLedger`] remembers when each account's last
//! confession was accepted. Both start empty, live in memory only, and are
//! emptied as a whole, never account by account.

use std::collections::HashMap;
use vstd::prelude::*;
use crate::audit::Category;

verus! {

broadcast use vstd::std_specs::hash::group_hash_axioms;

/// Seconds that must pass between two accepted confessions of one account.
pub const COOLDOWN_SECS: u64 = 1800;

/// Seconds between two wholesale resets of a violation ledger.
pub const RESET_INTERVAL_SECS: u64 = 600;

impl Category {
    /// Seconds after which the ledger of this category is reset, again and
    /// again. The confession cooldowns are never reset.
    pub open spec fn spec_reset_interval(self) -> Option<u64> {
        match self {
            Category::ChannelCreation => Some(RESET_INTERVAL_SECS),
            Category::MemberRemoval => Some(RESET_INTERVAL_SECS),
            Category::ConfessionSubmission => None,
        }
    }

    /// Seconds after which the ledger of this category is reset, if it is
    /// reset at all.
    #[verifier::when_used_as_spec(spec_reset_interval)]
    pub fn reset_interval(self) -> (interval: Option<u64>)
        ensures
            interval == self.spec_reset_interval(),
    {
        match self {
            Category::ChannelCreation => Some(RESET_INTERVAL_SECS),
            Category::MemberRemoval => Some(RESET_INTERVAL_SECS),
            Category::ConfessionSubmission => None,
        }
    }
}

/// The count that `counts` holds for `actor`: zero for an account that was
/// never recorded.
pub open spec fn count_in(counts: Map<u64, nat>, actor: u64) -> nat {
    if counts.contains_key(actor) {
        counts[actor]
    } else {
        0
    }
}

/// The counts after one more event was attributed to `actor`.
pub open spec fn recorded(counts: Map<u64, nat>, actor: u64) -> Map<u64, nat> {
    counts.insert(actor, count_in(counts, actor) + 1)
}

/// The counts after a reset: nothing is left of what was counted before.
pub open spec fn reset(counts: Map<u64, nat>) -> Map<u64, nat> {
    Map::empty()
}

/// The counts after the events attributed to `actors`, in that order, were
/// recorded on top of `counts`.
pub open spec fn replayed(counts: Map<u64, nat>, actors: Seq<u64>) -> Map<u64, nat>
    decreases actors.len(),
{
    if actors.len() == 0 {
        counts
    } else {
        recorded(replayed(counts, actors.drop_last()), actors.last())
    }
}

/// How many of the events in `actors` are attributed to `actor`.
pub open spec fn occurrences(actors: Seq<u64>, actor: u64) -> nat
    decreases actors.len(),
{
    if actors.len() == 0 {
        0
    } else if actors.last() == actor {
        occurrences(actors.drop_last(), actor) + 1
    } else {
        occurrences(actors.drop_last(), actor)
    }
}

/// Per-account counts of the events of one category.
pub struct ViolationLedger {
    counts: HashMap<u64, usize>,
}

impl View for ViolationLedger {
    type V = Map<u64, nat>;

    closed spec fn view(&self) -> Map<u64, nat> {
        Map::new(
            |actor: u64| self.counts@.contains_key(actor),
            |actor: u64| self.counts@[actor] as nat,
        )
    }
}

impl ViolationLedger {
    /// A ledger in which nothing is recorded.
    pub fn new() -> (ledger: Self)
        ensures
            ledger@ == Map::<u64, nat>::empty(),
    {
        let ledger = ViolationLedger { counts: HashMap::new() };
        assert(ledger@ =~= Map::<u64, nat>::empty());
        ledger
    }

    /// The number of events attributed to `actor` since the last reset.
    pub fn count(&self, actor: u64) -> (count: usize)
        ensures
            count == count_in(self@, actor),
    {
        match self.counts.get(&actor) {
            Some(count) => *count,
            None => 0,
        }
    }

    /// Attributes one more event to `actor` and returns the new count: one
    /// for an account that was not recorded yet. No other account's count
    /// changes.
    pub fn record_and_get(&mut self, actor: u64) -> (count: usize)
        requires
            count_in(old(self)@, actor) < usize::MAX,
        ensures
            final(self)@ == recorded(old(self)@, actor),
            count == count_in(old(self)@, actor) + 1,
    {
        let count = self.count(actor) + 1;
        self.counts.insert(actor, count);
        assert(self@ =~= recorded(old(self)@, actor));
        count
    }

    /// Forgets every count at once.
    pub fn reset_all(&mut self)
        ensures
            final(self)@ == reset(old(self)@),
    {
        self.counts.clear();
        assert(self@ =~= Map::<u64, nat>::empty());
    }
}

/// Whether an account may submit a confession.
#[derive(Clone, Copy, Debug, PartialEq, Eq, Structural)]
pub enum Cooldown {
    /// The account may submit.
    Ready,
    /// The account has to wait for `remaining` more seconds.
    Waiting { remaining: u64 },
}

/// Whether `actor` may submit at time `now`, given the times at which the
/// last confessions were accepted. An account waits while fewer than
/// [`COOLDOWN_SECS`] seconds have passed since its last accepted confession.
pub open spec fn cooldown_at(accepted: Map<u64, i64>, actor: u64, now: i64) -> Cooldown {
    if accepted.contains_key(actor) && now - accepted[actor] < COOLDOWN_SECS {
        Cooldown::Waiting { remaining: (COOLDOWN_SECS - (now - accepted[actor])) as u64 }
    } else {
        Cooldown::Ready
    }
}

/// The wait that `actor` has left at time `now` can be counted in a `u64`.
/// It cannot only where the clock reads far more than a hundred billion
/// years less than the stored time.
pub open spec fn wait_is_countable(accepted: Map<u64, i64>, actor: u64, now: i64) -> bool {
    accepted.contains_key(actor) ==> COOLDOWN_SECS - (now - accepted[actor]) <= u64::MAX
}

/// Per-account times, in seconds since the Unix epoch, of the last accepted
/// confession.
pub struct CooldownLedger {
    accepted: HashMap<u64, i64>,
}

impl View for CooldownLedger {
    type V = Map<u64, i64>;

    closed spec fn view(&self) -> Map<u64, i64> {
        self.accepted@
    }
}

impl CooldownLedger {
    /// A ledger in which nothing is recorded.
    pub fn new() -> (ledger: Self)
        ensures
            ledger@ == Map::<u64, i64>::empty(),
    {
        CooldownLedger { accepted: HashMap::new() }
    }

    /// When the last confession of `actor` was accepted, if one was.
    pub fn last_accepted(&self, actor: u64) -> (last: Option<i64>)
        ensures
            last == if self@.contains_key(actor) {
                Some(self@[actor])
            } else {
                None
            },
    {
        match self.accepted.get(&actor) {
            Some(last) => Some(*last),
            None => None,
        }
    }

    /// Whether the clock reading `now` can be held against what is stored
    /// for `actor`.
    pub fn can_check(&self, actor: u64, now: i64) -> (countable: bool)
        ensures
            countable == wait_is_countable(self@, actor, now),
    {
        match self.accepted.get(&actor) {
            Some(last) => 1800 - (now as i128 - *last as i128) <= u64::MAX as i128,
            None => true,
        }
    }

    /// Decides whether `actor` may submit at time `now`. Nothing is
    /// recorded: an attempt, accepted or not, leaves the ledger as it is.
    pub fn check(&self, actor: u64, now: i64) -> (cooldown: Cooldown)
        requires
            wait_is_countable(self@, actor, now),
        ensures
            cooldown == cooldown_at(self@, actor, now),
    {
        match self.accepted.get(&actor) {
            Some(last) => {
                let elapsed: i128 = now as i128 - *last as i128;
                if elapsed < 1800 {
                    Cooldown::Waiting { remaining: (1800 - elapsed) as u64 }
                } else {
                    Cooldown::Ready
                }
            },
            None => Cooldown::Ready,
        }
    }

    /// Records that a confession of `actor` was accepted at time `at`,
    /// replacing what was stored for that account.
    pub fn record(&mut self, actor: u64, at: i64)
        ensures
            final(self)@ == old(self)@.insert(actor, at),
    {
        self.accepted.insert(actor, at);
    }

    /// Forgets every stored time at once.
    pub fn reset_all(&mut self)
        ensures
            final(self)@ == Map::<u64, i64>::empty(),
    {
        self.accepted.clear();
    }
}

/// After a reset the next event attributed to any account counts as its
/// first, whatever was counted before.
pub proof fn lemma_reset_restarts_count(counts: Map<u64, nat>, actor: u64)
    ensures
        count_in(reset(counts), actor) == 0,
        count_in(recorded(reset(counts), actor), actor) == 1,
{
}

/// Recording an event raises the count of its account by one and leaves
/// every other account's count alone: no count ever goes down but by a
/// reset.
pub proof fn lemma_record_counts_one(counts: Map<u64, nat>, actor: u64, other: u64)
    ensures
        count_in(recorded(counts, actor), actor) == count_in(counts, actor) + 1,
        other != actor ==> count_in(recorded(counts, actor), other) == count_in(counts, other),
        count_in(recorded(counts, actor), other) >= count_in(counts, other),
{
}

/// After a run of events, the count of an account is what it was before
/// plus the number of events in the run that are attributed to it, however
/// the events of other accounts are interleaved.
pub proof fn lemma_replayed_counts_occurrences(counts: Map<u64, nat>, actors: Seq<u64>, actor: u64)
    ensures
        count_in(replayed(counts, actors), actor) == count_in(counts, actor) + occurrences(
            actors,
            actor,
        ),
    decreases actors.len(),
{
    if actors.len() > 0 {
        lemma_replayed_counts_occurrences(counts, actors.drop_last(), actor);
    }
}

/// An account whose last confession was accepted at time `last` waits at
/// every time less than [`COOLDOWN_SECS`] seconds later, for exactly the
/// seconds that are left, and is ready from then on.
pub proof fn lemma_cooldown_window(accepted: Map<u64, i64>, actor: u64, last: i64, now: i64)
    ensures
        cooldown_at(accepted.insert(actor, last), actor, now) is Waiting <==> now - last
            < COOLDOWN_SECS,
        cooldown_at(accepted.insert(actor, last), actor, now) is Ready <==> now - last
            >= COOLDOWN_SECS,
        now - last < COOLDOWN_SECS && wait_is_countable(accepted.insert(actor, last), actor, now)
            ==> cooldown_at(accepted.insert(actor, last), actor, now)->remaining
            == COOLDOWN_SECS - (now - last),
{
}

} // verus!
