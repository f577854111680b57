use guild_warden::effects::{moderators, notify, privileged_roles, revoke, Effect, CONFESSION_CHANNEL};

#[test]
fn fixed_identifiers() {
    assert_eq!(CONFESSION_CHANNEL, 846029848052629574);
    assert_eq!(moderators(), vec![807224123691761704, 805035493627920385]);
    assert_eq!(privileged_roles(), vec![834782660148592700, 834912308169015387]);
}

#[test]
fn notify_reaches_every_moderator() {
    assert_eq!(
        notify("heads up"),
        vec![
            Effect::DirectMessage { recipient: 807224123691761704, text: "heads up".to_string() },
            Effect::DirectMessage { recipient: 805035493627920385, text: "heads up".to_string() },
        ]
    );
}

#[test]
fn revoke_removes_every_privileged_role() {
    assert_eq!(
        revoke(11, 22),
        vec![
            Effect::RemoveRole { guild_id: 11, user_id: 22, role_id: 834782660148592700 },
            Effect::RemoveRole { guild_id: 11, user_id: 22, role_id: 834912308169015387 },
        ]
    );
}
