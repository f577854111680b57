//! What the engine asks the platform to do: the notifier and the revoker.
//!
//! The engine performs no I/O. Each handler returns a list of [`Effect`]s,
//! in the order in which they are to be carried out. Every effect is
//! best-effort: one that fails is logged by whoever carries it out and
//! neither blocks nor undoes the ones after it.

use vstd::prelude::*;

verus! {

/// The channel to which confessions are relayed.
pub const CONFESSION_CHANNEL: u64 = 846029848052629574;

/// The moderator accounts that are told about every attributed event.
pub open spec fn moderator_ids() -> Seq<u64> {
    seq![807224123691761704u64, 805035493627920385u64]
}

/// The privileged roles that an escalated account loses.
pub open spec fn privileged_role_ids() -> Seq<u64> {
    seq![834782660148592700u64, 834912308169015387u64]
}

/// One request to the platform.
#[derive(Clone, Debug, PartialEq, Eq)]
pub enum Effect {
    /// Send `text` to the account `recipient` as a direct message.
    DirectMessage { recipient: u64, text: String },
    /// Post `text` to the channel `channel_id`.
    ChannelMessage { channel_id: u64, text: String },
    /// Answer the message that is being handled with `text`.
    Reply { text: String },
    /// Take the role `role_id` away from the member `user_id` of the guild
    /// `guild_id`.
    RemoveRole { guild_id: u64, user_id: u64, role_id: u64 },
}

/// An [`Effect`] as contracts see it, with every text as a sequence of
/// characters.
pub enum EffectView {
    DirectMessage { recipient: u64, text: Seq<char> },
    ChannelMessage { channel_id: u64, text: Seq<char> },
    Reply { text: Seq<char> },
    RemoveRole { guild_id: u64, user_id: u64, role_id: u64 },
}

impl View for Effect {
    type V = EffectView;

    open spec fn view(&self) -> EffectView {
        match *self {
            Effect::DirectMessage { recipient, text } => EffectView::DirectMessage {
                recipient,
                text: text@,
            },
            Effect::ChannelMessage { channel_id, text } => EffectView::ChannelMessage {
                channel_id,
                text: text@,
            },
            Effect::Reply { text } => EffectView::Reply { text: text@ },
            Effect::RemoveRole { guild_id, user_id, role_id } => EffectView::RemoveRole {
                guild_id,
                user_id,
                role_id,
            },
        }
    }
}

impl DeepView for Effect {
    type V = EffectView;

    open spec fn deep_view(&self) -> EffectView {
        self@
    }
}

/// The notifier's effects for `text`: one direct message to each moderator,
/// in the order of [`moderator_ids`].
pub open spec fn notify_effects(text: Seq<char>) -> Seq<EffectView> {
    Seq::new(
        moderator_ids().len(),
        |i: int| EffectView::DirectMessage { recipient: moderator_ids()[i], text },
    )
}

/// The revoker's effects for the member `user_id` of `guild_id`: one removal
/// for each privileged role, in the order of [`privileged_role_ids`].
pub open spec fn revoke_effects(guild_id: u64, user_id: u64) -> Seq<EffectView> {
    Seq::new(
        privileged_role_ids().len(),
        |i: int| EffectView::RemoveRole { guild_id, user_id, role_id: privileged_role_ids()[i] },
    )
}

/// The moderator accounts that are told about every attributed event.
pub fn moderators() -> (ids: Vec<u64>)
    ensures
        ids@ == moderator_ids(),
{
    let mut ids: Vec<u64> = Vec::new();
    ids.push(807224123691761704);
    ids.push(805035493627920385);
    assert(ids@ =~= moderator_ids());
    ids
}

/// The privileged roles that an escalated account loses.
pub fn privileged_roles() -> (ids: Vec<u64>)
    ensures
        ids@ == privileged_role_ids(),
{
    let mut ids: Vec<u64> = Vec::new();
    ids.push(834782660148592700);
    ids.push(834912308169015387);
    assert(ids@ =~= privileged_role_ids());
    ids
}

/// Fans `text` out to the moderators: one direct message for each of them.
pub fn notify(text: &str) -> (effects: Vec<Effect>)
    ensures
        effects.deep_view() == notify_effects(text@),
{
    let recipients = moderators();
    let mut effects: Vec<Effect> = Vec::new();
    let mut at: usize = 0;
    while at < recipients.len()
        invariant
            at <= recipients.len(),
            recipients@ == moderator_ids(),
            effects.deep_view() == notify_effects(text@).take(at as int),
        decreases recipients.len() - at,
    {
        let ghost before = effects.deep_view();
        effects.push(
            Effect::DirectMessage { recipient: recipients[at], text: String::from_str(text) },
        );
        assert(effects.deep_view() =~= before.push(notify_effects(text@)[at as int]));
        at += 1;
    }
    assert(notify_effects(text@).take(at as int) =~= notify_effects(text@));
    effects
}

/// Revokes the privileged roles of the member `user_id` of `guild_id`: one
/// removal for each role, each attempted on its own.
pub fn revoke(guild_id: u64, user_id: u64) -> (effects: Vec<Effect>)
    ensures
        effects.deep_view() == revoke_effects(guild_id, user_id),
{
    let roles = privileged_roles();
    let mut effects: Vec<Effect> = Vec::new();
    let mut at: usize = 0;
    while at < roles.len()
        invariant
            at <= roles.len(),
            roles@ == privileged_role_ids(),
            effects.deep_view() == revoke_effects(guild_id, user_id).take(at as int),
        decreases roles.len() - at,
    {
        let ghost before = effects.deep_view();
        effects.push(Effect::RemoveRole { guild_id, user_id, role_id: roles[at] });
        assert(effects.deep_view() =~= before.push(revoke_effects(guild_id, user_id)[at as int]));
        at += 1;
    }
    assert(revoke_effects(guild_id, user_id).take(at as int) =~= revoke_effects(guild_id, user_id));
    effects
}

} // verus!
