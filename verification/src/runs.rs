//! What holds of runs of events.
//!
//! The handler's contracts say what one event does. The statements here are
//! about sequences of events: what a ledger counts over an epoch, when an
//! account's roles go, what a reset undoes, and how long a sender waits.

use vstd::prelude::*;
use crate::audit::{newest_match, Category};
use crate::effects::{
    notify_effects, privileged_role_ids, revoke_effects, EffectView, CONFESSION_CHANNEL,
};
use crate::handler::{escalation_effects, owned_tag_view, shown_tag, Event, HandlerView};
use crate::ledger::{count_in, COOLDOWN_SECS};
use crate::policy::escalated;
use crate::text::{
    channel_created_text, confession_text, cooldown_text, formatted_duration,
    member_removed_text, role_removed_text,
};

verus! {

impl Event {
    /// The category and the account that the event is attributed to, if it
    /// is an event that the audit trail accounts for.
    pub open spec fn attribution(self) -> Option<(Category, u64)> {
        match self {
            Event::ChannelCreate { guild_id, channel_id, channel_name, entries, actor_tag } =>
                match newest_match(entries@, channel_id, Category::ChannelCreation) {
                    Some(entry) => Some((Category::ChannelCreation, entry.user_id)),
                    None => None,
                },
            Event::GuildMemberRemoval { guild_id, user_id, user_tag, entries, actor_tag } =>
                match newest_match(entries@, user_id, Category::MemberRemoval) {
                    Some(entry) => Some((Category::MemberRemoval, entry.user_id)),
                    None => None,
                },
            _ => None,
        }
    }
}

impl HandlerView {
    /// The state after `events` were handled in that order.
    pub open spec fn run(self, events: Seq<Event>) -> HandlerView
        decreases events.len(),
    {
        if events.len() == 0 {
            self
        } else {
            self.run(events.drop_last()).step(events.last()).0
        }
    }
}

/// Whether `effects` hold a role removal.
pub open spec fn revokes(effects: Seq<EffectView>) -> bool {
    exists|k: int| 0 <= k < effects.len() && (#[trigger] effects[k]) is RemoveRole
}

/// What the escalation policy asks for is all or nothing. Below the
/// threshold no role is touched and the moderators get the report. From the
/// threshold on the moderators are told that the roles go, and the removals
/// that follow cover every privileged role.
pub proof fn lemma_roles_go_from_threshold(
    category: Category,
    guild_id: u64,
    actor: u64,
    tag: Seq<char>,
    count: nat,
    report: Seq<char>,
)
    ensures
        revokes(escalation_effects(category, guild_id, actor, tag, count, report)) <==> escalated(
            category,
            count,
        ),
        !escalated(category, count) ==> escalation_effects(
            category,
            guild_id,
            actor,
            tag,
            count,
            report,
        ) == notify_effects(report),
        escalated(category, count) ==> forall|r: int|
            0 <= r < privileged_role_ids().len() ==> escalation_effects(
                category,
                guild_id,
                actor,
                tag,
                count,
                report,
            ).contains(
                EffectView::RemoveRole {
                    guild_id,
                    user_id: actor,
                    role_id: #[trigger] privileged_role_ids()[r],
                },
            ),
{
    let effects = escalation_effects(category, guild_id, actor, tag, count, report);
    let told = notify_effects(role_removed_text(actor, tag));
    if escalated(category, count) {
        assert forall|r: int| 0 <= r < privileged_role_ids().len() implies effects.contains(
            EffectView::RemoveRole {
                guild_id,
                user_id: actor,
                role_id: #[trigger] privileged_role_ids()[r],
            },
        ) by {
            assert(effects[told.len() + r] == revoke_effects(guild_id, actor)[r]);
        }
        assert(effects[told.len() as int] is RemoveRole);
    }
}

/// How many events of `events` are attributed to `actor` in `category`.
pub open spec fn attributions(events: Seq<Event>, category: Category, actor: u64) -> nat
    decreases events.len(),
{
    if events.len() == 0 {
        0
    } else if events.last().attribution() == Some((category, actor)) {
        attributions(events.drop_last(), category, actor) + 1
    } else {
        attributions(events.drop_last(), category, actor)
    }
}

/// Within an epoch, a ledger counts for each account the events that were
/// attributed to it, and nothing else: after a run of events without a
/// reset of the category, the count of an account is what it was before
/// plus the number of events of the run that are attributed to it in that
/// category. Messages, events of other accounts, events of the other
/// category and events that the audit trail does not account for leave it
/// as it is.
pub proof fn lemma_count_is_attributions(
    start: HandlerView,
    events: Seq<Event>,
    category: Category,
    actor: u64,
)
    requires
        forall|i: int|
            0 <= i < events.len() ==> (#[trigger] events[i]) != (Event::EpochElapsed { category }),
    ensures
        count_in(start.run(events).counts(category), actor) == count_in(
            start.counts(category),
            actor,
        ) + attributions(events, category, actor),
    decreases events.len(),
{
    if events.len() > 0 {
        let earlier = events.drop_last();
        assert forall|i: int| 0 <= i < earlier.len() implies (#[trigger] earlier[i]) != (
        Event::EpochElapsed { category }) by {
            assert(earlier[i] == events[i]);
        }
        lemma_count_is_attributions(start, earlier, category, actor);
        assert(events.last() == events[events.len() - 1]);
    }
}

/// The event that an account's count reaches the threshold with is the
/// first of the epoch to take its roles away, and every later one takes
/// them away again. Take a run of events without a reset of `category`
/// whose last event is attributed to `actor` in `category`: that event
/// revokes exactly when the count before the run plus the number of events
/// of the run that are attributed to `actor` is at least the threshold.
/// Where the run starts an epoch and all its events are attributed to
/// `actor`, that number is the length of the run.
pub proof fn lemma_nth_event_revokes(
    start: HandlerView,
    events: Seq<Event>,
    category: Category,
    actor: u64,
)
    requires
        events.len() > 0,
        events.last().attribution() == Some((category, actor)),
        forall|i: int|
            0 <= i < events.len() ==> (#[trigger] events[i]) != (Event::EpochElapsed { category }),
    ensures
        revokes(start.run(events.drop_last()).step(events.last()).1) <==> count_in(
            start.counts(category),
            actor,
        ) + attributions(events, category, actor) >= category.spec_threshold()->0,
        category.spec_threshold() is Some,
        (forall|i: int|
            0 <= i < events.len() ==> (#[trigger] events[i]).attribution() == Some(
                (category, actor),
            )) ==> attributions(events, category, actor) == events.len(),
{
    lemma_count_is_attributions(start, events, category, actor);
    lemma_all_attributed(events, category, actor);
    let before = start.run(events.drop_last());
    let count = count_in(before.step(events.last()).0.counts(category), actor);
    match events.last() {
        Event::ChannelCreate { guild_id, channel_id, channel_name, entries, actor_tag } => {
            let tag = shown_tag(owned_tag_view(actor_tag));
            lemma_roles_go_from_threshold(
                category,
                guild_id,
                actor,
                tag,
                count,
                channel_created_text(actor, tag, channel_name@),
            );
        },
        Event::GuildMemberRemoval { guild_id, user_id, user_tag, entries, actor_tag } => {
            let tag = shown_tag(owned_tag_view(actor_tag));
            lemma_roles_go_from_threshold(
                category,
                guild_id,
                actor,
                tag,
                count,
                member_removed_text(actor, tag, user_id, user_tag@),
            );
        },
        _ => {},
    }
}

proof fn lemma_all_attributed(events: Seq<Event>, category: Category, actor: u64)
    ensures
        (forall|i: int|
            0 <= i < events.len() ==> (#[trigger] events[i]).attribution() == Some(
                (category, actor),
            )) ==> attributions(events, category, actor) == events.len(),
    decreases events.len(),
{
    if events.len() > 0 {
        let earlier = events.drop_last();
        lemma_all_attributed(earlier, category, actor);
        if forall|i: int|
            0 <= i < events.len() ==> (#[trigger] events[i]).attribution() == Some(
                (category, actor),
            ) {
            assert forall|i: int| 0 <= i < earlier.len() implies (#[trigger] earlier[
                i
            ]).attribution() == Some((category, actor)) by {
                assert(earlier[i] == events[i]);
            }
            assert(events.last() == events[events.len() - 1]);
        }
    }
}

/// No count goes down but by the reset of its own ledger: every other event
/// leaves each count as it is or raises it.
pub proof fn lemma_counts_never_decrease(
    state: HandlerView,
    event: Event,
    category: Category,
    actor: u64,
)
    requires
        event != (Event::EpochElapsed { category }),
    ensures
        count_in(state.step(event).0.counts(category), actor) >= count_in(
            state.counts(category),
            actor,
        ),
{
}

/// A reset starts a new epoch: the next event that is attributed to any
/// account counts as its first, whatever was counted before.
pub proof fn lemma_reset_starts_epoch(state: HandlerView, event: Event)
    requires
        event.attribution() is Some,
    ensures
        ({
            let (category, actor) = event.attribution()->0;
            count_in(state.reset_all(category).step(event).0.counts(category), actor) == 1
        }),
{
}

/// The cooldown law. Once a confession of `sender` was accepted at time
/// `last`, a further attempt at time `now` changes nothing that is stored.
/// Fewer than [`COOLDOWN_SECS`] seconds later it is answered with the wait
/// that is left and nothing is posted; from then on it is posted.
pub proof fn lemma_cooldown(state: HandlerView, sender: u64, last: i64, now: i64, content: String)
    ensures
        ({
            let waiting = state.confession_delivered(sender, last);
            let attempt = Event::Message { sender, is_private: true, is_own: false, now, content };
            &&& waiting.step(attempt).0 == waiting
            &&& waiting.step(attempt).0.confessions[sender] == last
            &&& now - last < COOLDOWN_SECS ==> waiting.step(attempt).1 == seq![
                EffectView::Reply {
                    text: cooldown_text(
                        formatted_duration((COOLDOWN_SECS - (now - last)) as u64),
                    ),
                },
            ]
            &&& now - last >= COOLDOWN_SECS ==> waiting.step(attempt).1 == seq![
                EffectView::ChannelMessage {
                    channel_id: CONFESSION_CHANNEL,
                    text: confession_text(content@),
                },
            ]
        }),
{
}

/// A sender of whom nothing is stored is never made to wait.
pub proof fn lemma_first_confession_is_posted(
    state: HandlerView,
    sender: u64,
    now: i64,
    content: String,
)
    requires
        !state.confessions.contains_key(sender),
    ensures
        state.step(Event::Message { sender, is_private: true, is_own: false, now, content }).1
            == seq![
            EffectView::ChannelMessage {
                channel_id: CONFESSION_CHANNEL,
                text: confession_text(content@),
            },
        ],
{
}

} // verus!
