//! The event dispatcher: from state and event to next state and effects.
//!
//! A [`Handler`] owns the ledgers. Each platform event is handed to the
//! method of its name together with what was fetched for it, and comes back
//! as the list of effects to carry out. The caller holds the handler under
//! one lock, takes it only for the call, and performs every network request
//! outside of it.

use vstd::prelude::*;
use crate::audit::{newest_match, resolve_actor, AuditEntry, Category};
use crate::effects::{
    notify, notify_effects, revoke, revoke_effects, Effect, EffectView, CONFESSION_CHANNEL,
};
use crate::ledger::{
    cooldown_at, count_in, recorded, reset, wait_is_countable, Cooldown, CooldownLedger,
    ViolationLedger,
};
use crate::policy::{decide, verdict_for, Verdict};
use crate::text::{
    channel_created_notice, channel_created_text, confession_ack, confession_ack_text,
    confession_post, confession_text, cooldown_reply, cooldown_text, formatted_duration,
    member_removed_notice, member_removed_text, role_removed_notice, role_removed_text,
    tag_or_unknown, unknown_tag,
};

verus! {

/// The engine's state: two violation ledgers and the confession cooldowns.
pub struct Handler {
    channel_creations: ViolationLedger,
    member_removals: ViolationLedger,
    confessions: CooldownLedger,
}

/// A [`Handler`] as contracts see it.
pub struct HandlerView {
    /// Channel creations per account in the current epoch.
    pub channel_creations: Map<u64, nat>,
    /// Member removals per account in the current epoch.
    pub member_removals: Map<u64, nat>,
    /// When each account's last confession was accepted.
    pub confessions: Map<u64, i64>,
}

impl View for Handler {
    type V = HandlerView;

    closed spec fn view(&self) -> HandlerView {
        HandlerView {
            channel_creations: self.channel_creations@,
            member_removals: self.member_removals@,
            confessions: self.confessions@,
        }
    }
}

/// A platform event, together with what was fetched for it.
#[derive(Clone, Debug, PartialEq, Eq)]
pub enum Event {
    /// A message arrived; see [`Handler::message`].
    Message { sender: u64, is_private: bool, is_own: bool, now: i64, content: String },
    /// A confession was posted; see [`Handler::confession_delivered`].
    ConfessionDelivered { sender: u64, at: i64 },
    /// A channel was created; see [`Handler::channel_create`].
    ChannelCreate {
        guild_id: u64,
        channel_id: u64,
        channel_name: String,
        entries: Vec<AuditEntry>,
        actor_tag: Option<String>,
    },
    /// A member left or was removed; see [`Handler::guild_member_removal`].
    GuildMemberRemoval {
        guild_id: u64,
        user_id: u64,
        user_tag: String,
        entries: Vec<AuditEntry>,
        actor_tag: Option<String>,
    },
    /// The epoch of `category` is over; see [`Handler::reset_all`].
    EpochElapsed { category: Category },
}

/// A looked-up tag as contracts see it.
pub open spec fn tag_view(tag: Option<&str>) -> Option<Seq<char>> {
    match tag {
        Some(tag) => Some(tag@),
        None => None,
    }
}

/// A looked-up tag that an [`Event`] carries, as contracts see it.
pub open spec fn owned_tag_view(tag: Option<String>) -> Option<Seq<char>> {
    match tag {
        Some(tag) => Some(tag@),
        None => None,
    }
}

/// The tag that is shown for an account: the one that was looked up, or the
/// stand-in where the lookup failed.
pub open spec fn shown_tag(tag: Option<Seq<char>>) -> Seq<char> {
    match tag {
        Some(tag) => tag,
        None => unknown_tag(),
    }
}

/// What is done about an event of `category` in `guild_id` that brought the
/// count of `actor` to `count`. Below the threshold the moderators get
/// `report`. From the threshold on they are told that the roles go, and
/// every privileged role is removed, once more on each further event.
pub open spec fn escalation_effects(
    category: Category,
    guild_id: u64,
    actor: u64,
    tag: Seq<char>,
    count: nat,
    report: Seq<char>,
) -> Seq<EffectView> {
    match verdict_for(category, count) {
        Verdict::NotifyOnly => notify_effects(report),
        Verdict::NotifyAndRevoke => notify_effects(role_removed_text(actor, tag)) + revoke_effects(
            guild_id,
            actor,
        ),
    }
}

impl HandlerView {
    /// The state in which nothing is recorded.
    pub open spec fn empty() -> HandlerView {
        HandlerView {
            channel_creations: Map::empty(),
            member_removals: Map::empty(),
            confessions: Map::empty(),
        }
    }

    /// The effects of a message from `sender` that arrives at time `now`.
    /// Only a direct message that the engine did not write itself is a
    /// confession. It is posted unless the sender is cooling down; then the
    /// sender is told how long to wait and nothing is posted.
    pub open spec fn message(
        self,
        sender: u64,
        is_private: bool,
        is_own: bool,
        now: i64,
        content: Seq<char>,
    ) -> Seq<EffectView> {
        if !is_private || is_own {
            Seq::empty()
        } else {
            match cooldown_at(self.confessions, sender, now) {
                Cooldown::Waiting { remaining } => seq![
                    EffectView::Reply { text: cooldown_text(formatted_duration(remaining)) },
                ],
                Cooldown::Ready => seq![
                    EffectView::ChannelMessage {
                        channel_id: CONFESSION_CHANNEL,
                        text: confession_text(content),
                    },
                ],
            }
        }
    }

    /// The state after a confession of `sender` was posted at time `at`.
    pub open spec fn confession_delivered(self, sender: u64, at: i64) -> HandlerView {
        HandlerView { confessions: self.confessions.insert(sender, at), ..self }
    }

    /// The state and the effects after the channel `channel_id`, named
    /// `channel_name`, appeared in `guild_id`, with `entries` fetched from
    /// the audit trail and `actor_tag` looked up for the account that the
    /// trail holds responsible.
    pub open spec fn channel_create(
        self,
        guild_id: u64,
        channel_id: u64,
        channel_name: Seq<char>,
        entries: Seq<AuditEntry>,
        actor_tag: Option<Seq<char>>,
    ) -> (HandlerView, Seq<EffectView>) {
        match newest_match(entries, channel_id, Category::ChannelCreation) {
            None => (self, Seq::empty()),
            Some(entry) => {
                let counts = recorded(self.channel_creations, entry.user_id);
                let tag = shown_tag(actor_tag);
                (
                    HandlerView { channel_creations: counts, ..self },
                    escalation_effects(
                        Category::ChannelCreation,
                        guild_id,
                        entry.user_id,
                        tag,
                        count_in(counts, entry.user_id),
                        channel_created_text(entry.user_id, tag, channel_name),
                    ),
                )
            },
        }
    }

    /// The state and the effects after the account `user_id`, with the tag
    /// `user_tag`, left `guild_id`, with `entries` fetched from the audit
    /// trail and `actor_tag` looked up for the account that the trail holds
    /// responsible.
    pub open spec fn guild_member_removal(
        self,
        guild_id: u64,
        user_id: u64,
        user_tag: Seq<char>,
        entries: Seq<AuditEntry>,
        actor_tag: Option<Seq<char>>,
    ) -> (HandlerView, Seq<EffectView>) {
        match newest_match(entries, user_id, Category::MemberRemoval) {
            None => (self, Seq::empty()),
            Some(entry) => {
                let counts = recorded(self.member_removals, entry.user_id);
                let tag = shown_tag(actor_tag);
                (
                    HandlerView { member_removals: counts, ..self },
                    escalation_effects(
                        Category::MemberRemoval,
                        guild_id,
                        entry.user_id,
                        tag,
                        count_in(counts, entry.user_id),
                        member_removed_text(entry.user_id, tag, user_id, user_tag),
                    ),
                )
            },
        }
    }

    /// The state after the ledger of `category` was reset.
    pub open spec fn reset_all(self, category: Category) -> HandlerView {
        match category {
            Category::ChannelCreation => HandlerView {
                channel_creations: reset(self.channel_creations),
                ..self
            },
            Category::MemberRemoval => HandlerView {
                member_removals: reset(self.member_removals),
                ..self
            },
            Category::ConfessionSubmission => HandlerView { confessions: Map::empty(), ..self },
        }
    }

    /// The counts that are kept for `category`. Confessions are not counted.
    pub open spec fn counts(self, category: Category) -> Map<u64, nat> {
        match category {
            Category::ChannelCreation => self.channel_creations,
            Category::MemberRemoval => self.member_removals,
            Category::ConfessionSubmission => Map::empty(),
        }
    }

    /// If `entries` attribute an event of `category` on `target_id` to an
    /// account, that account's count can still be raised by one.
    pub open spec fn has_room(
        self,
        category: Category,
        entries: Seq<AuditEntry>,
        target_id: u64,
    ) -> bool {
        newest_match(entries, target_id, category) matches Some(entry) ==> count_in(
            self.counts(category),
            entry.user_id,
        ) < usize::MAX
    }

    /// Whether `event` is within what the machine can count: the count it
    /// raises is below `usize::MAX`, the wait it asks about fits a `u64`.
    pub open spec fn accepts(self, event: Event) -> bool {
        match event {
            Event::Message { sender, is_private, is_own, now, content } => is_private && !is_own
                ==> wait_is_countable(self.confessions, sender, now),
            Event::ConfessionDelivered { sender, at } => true,
            Event::ChannelCreate { guild_id, channel_id, channel_name, entries, actor_tag } =>
                self.has_room(Category::ChannelCreation, entries@, channel_id),
            Event::GuildMemberRemoval { guild_id, user_id, user_tag, entries, actor_tag } =>
                self.has_room(Category::MemberRemoval, entries@, user_id),
            Event::EpochElapsed { category } => true,
        }
    }

    /// The state that `event` leads to and the effects it has.
    pub open spec fn step(self, event: Event) -> (HandlerView, Seq<EffectView>) {
        match event {
            Event::Message { sender, is_private, is_own, now, content } => (
                self,
                self.message(sender, is_private, is_own, now, content@),
            ),
            Event::ConfessionDelivered { sender, at } => (
                self.confession_delivered(sender, at),
                seq![EffectView::Reply { text: confession_ack_text() }],
            ),
            Event::ChannelCreate { guild_id, channel_id, channel_name, entries, actor_tag } =>
                self.channel_create(
                    guild_id,
                    channel_id,
                    channel_name@,
                    entries@,
                    owned_tag_view(actor_tag),
                ),
            Event::GuildMemberRemoval { guild_id, user_id, user_tag, entries, actor_tag } =>
                self.guild_member_removal(
                    guild_id,
                    user_id,
                    user_tag@,
                    entries@,
                    owned_tag_view(actor_tag),
                ),
            Event::EpochElapsed { category } => (self.reset_all(category), Seq::empty()),
        }
    }
}

/// Carries out the escalation policy for an event of `category` in
/// `guild_id` that brought the count of `actor` to `count`.
pub fn escalate(
    category: Category,
    guild_id: u64,
    actor: u64,
    tag: &str,
    count: usize,
    report: &str,
) -> (effects: Vec<Effect>)
    ensures
        effects.deep_view() == escalation_effects(
            category,
            guild_id,
            actor,
            tag@,
            count as nat,
            report@,
        ),
{
    match decide(category, count) {
        Verdict::NotifyOnly => notify(report),
        Verdict::NotifyAndRevoke => {
            let notice = role_removed_notice(actor, tag);
            let mut effects = notify(notice.as_str());
            let mut removals = revoke(guild_id, actor);
            let ghost told = effects.deep_view();
            let ghost removed = removals.deep_view();
            effects.append(&mut removals);
            assert(effects.deep_view() =~= told + removed);
            effects
        },
    }
}

impl Handler {
    /// A handler with empty ledgers, as at process start.
    pub fn new() -> (handler: Self)
        ensures
            handler@ == HandlerView::empty(),
    {
        Handler {
            channel_creations: ViolationLedger::new(),
            member_removals: ViolationLedger::new(),
            confessions: CooldownLedger::new(),
        }
    }

    /// The ledger of channel creations.
    pub fn channel_creations(&self) -> (ledger: &ViolationLedger)
        ensures
            ledger@ == self@.channel_creations,
    {
        &self.channel_creations
    }

    /// The ledger of member removals.
    pub fn member_removals(&self) -> (ledger: &ViolationLedger)
        ensures
            ledger@ == self@.member_removals,
    {
        &self.member_removals
    }

    /// The ledger of confession cooldowns.
    pub fn confessions(&self) -> (ledger: &CooldownLedger)
        ensures
            ledger@ == self@.confessions,
    {
        &self.confessions
    }

    /// Handles a message from `sender` that arrived at time `now`, in
    /// seconds since the Unix epoch. `is_private` says whether it is a
    /// direct message, `is_own` whether the engine's own account wrote it,
    /// and `content` is its text with mentions made harmless.
    ///
    /// A confession from a sender who is not cooling down is posted to the
    /// confession channel; the caller reports the post with
    /// [`Handler::confession_delivered`]. A sender who is cooling down is
    /// told how long to wait. The ledger is only read: no attempt, accepted
    /// or rejected, changes what is stored.
    pub fn message(
        &self,
        sender: u64,
        is_private: bool,
        is_own: bool,
        now: i64,
        content: &str,
    ) -> (effects: Vec<Effect>)
        requires
            is_private && !is_own ==> wait_is_countable(self@.confessions, sender, now),
        ensures
            effects.deep_view() == self@.message(sender, is_private, is_own, now, content@),
    {
        let mut effects: Vec<Effect> = Vec::new();
        if is_private && !is_own {
            match self.confessions.check(sender, now) {
                Cooldown::Waiting { remaining } => {
                    effects.push(Effect::Reply { text: cooldown_reply(remaining) });
                },
                Cooldown::Ready => {
                    effects.push(
                        Effect::ChannelMessage {
                            channel_id: CONFESSION_CHANNEL,
                            text: confession_post(content),
                        },
                    );
                },
            }
        }
        assert(effects.deep_view() =~= self@.message(sender, is_private, is_own, now, content@));
        effects
    }

    /// Records that the confession of `sender` was posted at time `at`, in
    /// seconds since the Unix epoch, and acknowledges it to the sender. A
    /// confession whose post failed is not reported and leaves no trace.
    pub fn confession_delivered(&mut self, sender: u64, at: i64) -> (effects: Vec<Effect>)
        ensures
            final(self)@ == old(self)@.confession_delivered(sender, at),
            effects.deep_view() == seq![EffectView::Reply { text: confession_ack_text() }],
    {
        self.confessions.record(sender, at);
        let mut effects: Vec<Effect> = Vec::new();
        effects.push(Effect::Reply { text: confession_ack() });
        assert(effects.deep_view() =~= seq![EffectView::Reply { text: confession_ack_text() }]);
        effects
    }

    /// Handles the creation of the channel `channel_id`, named
    /// `channel_name`, in `guild_id`. `entries` are the audit-trail entries
    /// fetched for the event and `actor_tag` is the tag of the account that
    /// [`resolve_actor`] names for them, or `None` if the lookup failed.
    ///
    /// An event that no entry accounts for changes nothing and has no
    /// effects. Otherwise the responsible account's count goes up by one
    /// and the escalation policy is carried out.
    pub fn channel_create(
        &mut self,
        guild_id: u64,
        channel_id: u64,
        channel_name: &str,
        entries: &Vec<AuditEntry>,
        actor_tag: Option<&str>,
    ) -> (effects: Vec<Effect>)
        requires
            old(self)@.has_room(Category::ChannelCreation, entries@, channel_id),
        ensures
            final(self)@ == old(self)@.channel_create(
                guild_id,
                channel_id,
                channel_name@,
                entries@,
                tag_view(actor_tag),
            ).0,
            effects.deep_view() == old(self)@.channel_create(
                guild_id,
                channel_id,
                channel_name@,
                entries@,
                tag_view(actor_tag),
            ).1,
    {
        match resolve_actor(entries, channel_id, Category::ChannelCreation) {
            None => {
                let effects: Vec<Effect> = Vec::new();
                assert(effects.deep_view() =~= Seq::<EffectView>::empty());
                effects
            },
            Some(entry) => {
                let tag = tag_or_unknown(actor_tag);
                let count = self.channel_creations.record_and_get(entry.user_id);
                let report = channel_created_notice(entry.user_id, tag.as_str(), channel_name);
                escalate(
                    Category::ChannelCreation,
                    guild_id,
                    entry.user_id,
                    tag.as_str(),
                    count,
                    report.as_str(),
                )
            },
        }
    }

    /// Handles the removal of the member `user_id`, with the tag
    /// `user_tag`, from `guild_id`. `entries` are the audit-trail entries
    /// fetched for the event and `actor_tag` is the tag of the account that
    /// [`resolve_actor`] names for them, or `None` if the lookup failed.
    ///
    /// A member who left without a kick or ban on record changes nothing
    /// and has no effects. Otherwise the responsible account's count goes up
    /// by one, whether it kicked or banned, and the escalation policy is
    /// carried out.
    pub fn guild_member_removal(
        &mut self,
        guild_id: u64,
        user_id: u64,
        user_tag: &str,
        entries: &Vec<AuditEntry>,
        actor_tag: Option<&str>,
    ) -> (effects: Vec<Effect>)
        requires
            old(self)@.has_room(Category::MemberRemoval, entries@, user_id),
        ensures
            final(self)@ == old(self)@.guild_member_removal(
                guild_id,
                user_id,
                user_tag@,
                entries@,
                tag_view(actor_tag),
            ).0,
            effects.deep_view() == old(self)@.guild_member_removal(
                guild_id,
                user_id,
                user_tag@,
                entries@,
                tag_view(actor_tag),
            ).1,
    {
        match resolve_actor(entries, user_id, Category::MemberRemoval) {
            None => {
                let effects: Vec<Effect> = Vec::new();
                assert(effects.deep_view() =~= Seq::<EffectView>::empty());
                effects
            },
            Some(entry) => {
                let tag = tag_or_unknown(actor_tag);
                let count = self.member_removals.record_and_get(entry.user_id);
                let report = member_removed_notice(
                    entry.user_id,
                    tag.as_str(),
                    user_id,
                    user_tag,
                );
                escalate(
                    Category::MemberRemoval,
                    guild_id,
                    entry.user_id,
                    tag.as_str(),
                    count,
                    report.as_str(),
                )
            },
        }
    }

    /// Empties the ledger of `category`: the start of a new epoch. Every
    /// account is clean again.
    pub fn reset_all(&mut self, category: Category)
        ensures
            final(self)@ == old(self)@.reset_all(category),
    {
        match category {
            Category::ChannelCreation => self.channel_creations.reset_all(),
            Category::MemberRemoval => self.member_removals.reset_all(),
            Category::ConfessionSubmission => self.confessions.reset_all(),
        }
    }

    /// Whether the event that `entries` attribute to an account, if they
    /// attribute one, can still be counted.
    pub fn can_attribute(
        &self,
        category: Category,
        entries: &Vec<AuditEntry>,
        target_id: u64,
    ) -> (room: bool)
        ensures
            room == self@.has_room(category, entries@, target_id),
    {
        match resolve_actor(entries, target_id, category) {
            None => true,
            Some(entry) => match category {
                Category::ChannelCreation => self.channel_creations.count(entry.user_id)
                    < usize::MAX,
                Category::MemberRemoval => self.member_removals.count(entry.user_id) < usize::MAX,
                Category::ConfessionSubmission => true,
            },
        }
    }

    /// Dispatches `event` to the method of its name. An event beyond what
    /// the machine can count is refused with `None` and changes nothing;
    /// every other event is handled.
    pub fn handle(&mut self, event: &Event) -> (effects: Option<Vec<Effect>>)
        ensures
            effects is Some <==> old(self)@.accepts(*event),
            effects matches Some(effects) ==> {
                &&& final(self)@ == old(self)@.step(*event).0
                &&& effects.deep_view() == old(self)@.step(*event).1
            },
            effects is None ==> final(self)@ == old(self)@,
    {
        match event {
            Event::Message { sender, is_private, is_own, now, content } => {
                if *is_private && !*is_own && !self.confessions.can_check(*sender, *now) {
                    return None;
                }
                Some(self.message(*sender, *is_private, *is_own, *now, content.as_str()))
            },
            Event::ConfessionDelivered { sender, at } => Some(
                self.confession_delivered(*sender, *at),
            ),
            Event::ChannelCreate { guild_id, channel_id, channel_name, entries, actor_tag } => {
                if !self.can_attribute(Category::ChannelCreation, entries, *channel_id) {
                    return None;
                }
                let tag = match actor_tag {
                    Some(tag) => Some(tag.as_str()),
                    None => None,
                };
                Some(
                    self.channel_create(
                        *guild_id,
                        *channel_id,
                        channel_name.as_str(),
                        entries,
                        tag,
                    ),
                )
            },
            Event::GuildMemberRemoval { guild_id, user_id, user_tag, entries, actor_tag } => {
                if !self.can_attribute(Category::MemberRemoval, entries, *user_id) {
                    return None;
                }
                let tag = match actor_tag {
                    Some(tag) => Some(tag.as_str()),
                    None => None,
                };
                Some(
                    self.guild_member_removal(
                        *guild_id,
                        *user_id,
                        user_tag.as_str(),
                        entries,
                        tag,
                    ),
                )
            },
            Event::EpochElapsed { category } => {
                self.reset_all(*category);
                let effects: Vec<Effect> = Vec::new();
                assert(effects.deep_view() =~= Seq::<EffectView>::empty());
                Some(effects)
            },
        }
    }
}

} // verus!
