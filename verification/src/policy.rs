//! The escalation policy: when counting turns into revoking.
//!
//! An account is clean while its count in the current epoch is below the
//! category's threshold. The event that brings the count to the threshold
//! escalates it, and so does every later event of the epoch: the roles are
//! taken away again each time, which the platform treats as a no-op.

use vstd::prelude::*;
use crate::audit::Category;
use crate::ledger::{
    count_in, lemma_replayed_counts_occurrences, occurrences, replayed, reset,
};

verus! {

/// Channel creations in one epoch from which an account is escalated.
pub const CHANNEL_CREATION_THRESHOLD: usize = 10;

/// Member removals in one epoch from which an account is escalated.
pub const MEMBER_REMOVAL_THRESHOLD: usize = 5;

/// What is done about an attributed event.
#[derive(Clone, Copy, Debug, PartialEq, Eq, Structural)]
pub enum Verdict {
    /// The moderators are told what happened.
    NotifyOnly,
    /// The moderators are told that the account loses its privileged roles,
    /// and the roles are removed.
    NotifyAndRevoke,
}

impl Category {
    /// The count from which an account is escalated. Confessions are
    /// limited by a cooldown and have no threshold.
    pub open spec fn spec_threshold(self) -> Option<usize> {
        match self {
            Category::ChannelCreation => Some(CHANNEL_CREATION_THRESHOLD),
            Category::MemberRemoval => Some(MEMBER_REMOVAL_THRESHOLD),
            Category::ConfessionSubmission => None,
        }
    }

    /// The count from which an account is escalated, if the category has
    /// one.
    #[verifier::when_used_as_spec(spec_threshold)]
    pub fn threshold(self) -> (threshold: Option<usize>)
        ensures
            threshold == self.spec_threshold(),
    {
        match self {
            Category::ChannelCreation => Some(CHANNEL_CREATION_THRESHOLD),
            Category::MemberRemoval => Some(MEMBER_REMOVAL_THRESHOLD),
            Category::ConfessionSubmission => None,
        }
    }
}

/// Whether an account with `count` events of `category` in the current
/// epoch is escalated.
pub open spec fn escalated(category: Category, count: nat) -> bool {
    category.spec_threshold() matches Some(threshold) && count >= threshold
}

/// The verdict on an event that brought its account's count to `count`.
pub open spec fn verdict_for(category: Category, count: nat) -> Verdict {
    if escalated(category, count) {
        Verdict::NotifyAndRevoke
    } else {
        Verdict::NotifyOnly
    }
}

/// Decides what is done about an event of `category` that brought its
/// account's count to `count`. An account already escalated is not told
/// apart from one that has just crossed the threshold.
pub fn decide(category: Category, count: usize) -> (verdict: Verdict)
    ensures
        verdict == verdict_for(category, count as nat),
{
    match category.threshold() {
        Some(threshold) => if count >= threshold {
            Verdict::NotifyAndRevoke
        } else {
            Verdict::NotifyOnly
        },
        None => Verdict::NotifyOnly,
    }
}

/// The last event of the run `actors`, recorded on top of `counts`, revokes
/// exactly when the count that its account had before the run plus the
/// number of events of the run that are attributed to that account is at
/// least the threshold. In an epoch that started from an empty ledger the
/// first event of an account to revoke is therefore its threshold-th, none
/// before it does, and every later one does again, whatever other accounts
/// did in between.
pub proof fn lemma_revokes_from_threshold(
    category: Category,
    counts: Map<u64, nat>,
    actors: Seq<u64>,
)
    requires
        actors.len() > 0,
        category.spec_threshold() is Some,
    ensures
        verdict_for(category, count_in(replayed(counts, actors), actors.last()))
            == Verdict::NotifyAndRevoke <==> count_in(counts, actors.last()) + occurrences(
            actors,
            actors.last(),
        ) >= category.spec_threshold()->0,
{
    lemma_replayed_counts_occurrences(counts, actors, actors.last());
}

/// An account goes from clean to escalated on one event only: the one that
/// brings its count to the threshold.
pub proof fn lemma_escalates_at_threshold(category: Category, count: nat)
    requires
        category.spec_threshold() is Some,
    ensures
        !escalated(category, count) && escalated(category, count + 1) <==> count + 1
            == category.spec_threshold()->0,
        escalated(category, count) ==> escalated(category, count + 1),
{
}

/// A reset returns every account to clean.
pub proof fn lemma_reset_returns_to_clean(category: Category, counts: Map<u64, nat>, actor: u64)
    ensures
        !escalated(category, count_in(reset(counts), actor)),
{
}

} // verus!
