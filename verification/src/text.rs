//! The wording of every message the engine sends.

use vstd::prelude::*;

verus! {

/// The tag used for an account whose name could not be looked up.
pub open spec fn unknown_tag() -> Seq<char> {
    "unknown-user"@
}

/// The character for one decimal digit.
pub open spec fn digit(d: nat) -> char {
    if d == 0 {
        '0'
    } else if d == 1 {
        '1'
    } else if d == 2 {
        '2'
    } else if d == 3 {
        '3'
    } else if d == 4 {
        '4'
    } else if d == 5 {
        '5'
    } else if d == 6 {
        '6'
    } else if d == 7 {
        '7'
    } else if d == 8 {
        '8'
    } else {
        '9'
    }
}

/// `n` in decimal, without sign or leading zeros.
pub open spec fn decimal(n: nat) -> Seq<char>
    decreases n,
{
    if n < 10 {
        seq![digit(n)]
    } else {
        decimal(n / 10).push(digit(n % 10))
    }
}

/// A mention of the account `actor` followed by its tag in brackets.
pub open spec fn actor_text(actor: u64, tag: Seq<char>) -> Seq<char> {
    "<@"@ + decimal(actor as nat) + "> ("@ + tag + ")"@
}

/// Told to the moderators when `actor` created the channel named `channel`.
pub open spec fn channel_created_text(actor: u64, tag: Seq<char>, channel: Seq<char>) -> Seq<char> {
    actor_text(actor, tag) + " has just created channel ("@ + channel + ")"@
}

/// Told to the moderators when `actor` kicked or banned `removed`.
pub open spec fn member_removed_text(
    actor: u64,
    tag: Seq<char>,
    removed: u64,
    removed_tag: Seq<char>,
) -> Seq<char> {
    actor_text(actor, tag) + " has just kicked/banned "@ + actor_text(removed, removed_tag)
}

/// Told to the moderators when `actor` loses the privileged roles.
pub open spec fn role_removed_text(actor: u64, tag: Seq<char>) -> Seq<char> {
    actor_text(actor, tag) + " has had their admin role removed"@
}

/// Told to a sender who is still cooling down; `remaining` is the wait that
/// is left, already put in words.
pub open spec fn cooldown_text(remaining: Seq<char>) -> Seq<char> {
    "You can only send one confession every 30 minutes! "@ + "Time remaining: "@ + remaining
}

/// What is posted to the confession channel for a confession that reads
/// `content`.
pub open spec fn confession_text(content: Seq<char>) -> Seq<char> {
    "**CONFESSION**\n"@ + content
}

/// Told to a sender whose confession was posted.
pub open spec fn confession_ack_text() -> Seq<char> {
    "Sent confession <3"@
}

/// What `humantime::format_duration` renders for a duration of `secs` whole
/// seconds.
pub uninterp spec fn formatted_duration(secs: u64) -> Seq<char>;

/// Puts a number of seconds in words ("20m", "1h 30m 5s"). Calls
/// `humantime::format_duration` and takes its `Display` output; all that is
/// claimed is that the text depends on the number of seconds alone.
#[verifier::external_body]
pub(crate) fn format_duration(secs: u64) -> (text: String)
    ensures
        text@ == formatted_duration(secs),
{
    humantime::format_duration(std::time::Duration::from_secs(secs)).to_string()
}

fn digit_str(d: u64) -> (text: &'static str)
    requires
        d < 10,
    ensures
        text@ == seq![digit(d as nat)],
{
    proof {
        reveal_strlit("0");
        reveal_strlit("1");
        reveal_strlit("2");
        reveal_strlit("3");
        reveal_strlit("4");
        reveal_strlit("5");
        reveal_strlit("6");
        reveal_strlit("7");
        reveal_strlit("8");
        reveal_strlit("9");
    }
    let text = if d == 0 {
        "0"
    } else if d == 1 {
        "1"
    } else if d == 2 {
        "2"
    } else if d == 3 {
        "3"
    } else if d == 4 {
        "4"
    } else if d == 5 {
        "5"
    } else if d == 6 {
        "6"
    } else if d == 7 {
        "7"
    } else if d == 8 {
        "8"
    } else {
        "9"
    };
    assert(text@ =~= seq![digit(d as nat)]);
    text
}

/// Appends `n` in decimal to `text`.
pub fn append_decimal(text: &mut String, n: u64)
    ensures
        final(text)@ == old(text)@ + decimal(n as nat),
    decreases n,
{
    if n >= 10 {
        append_decimal(text, n / 10);
    }
    text.append(digit_str(n % 10));
    assert(text@ =~= old(text)@ + decimal(n as nat));
}

/// The tag to show for an account: the one that was looked up, or the
/// stand-in for an account whose lookup failed.
pub fn tag_or_unknown(tag: Option<&str>) -> (shown: String)
    ensures
        shown@ == match tag {
            Some(tag) => tag@,
            None => unknown_tag(),
        },
{
    match tag {
        Some(tag) => String::from_str(tag),
        None => String::from_str("unknown-user"),
    }
}

fn append_actor(text: &mut String, actor: u64, tag: &str)
    ensures
        final(text)@ == old(text)@ + actor_text(actor, tag@),
{
    text.append("<@");
    append_decimal(text, actor);
    text.append("> (");
    text.append(tag);
    text.append(")");
    assert(text@ =~= old(text)@ + actor_text(actor, tag@));
}

/// Words the notice that `actor` created the channel named `channel`.
pub fn channel_created_notice(actor: u64, tag: &str, channel: &str) -> (text: String)
    ensures
        text@ == channel_created_text(actor, tag@, channel@),
{
    let mut text = String::new();
    append_actor(&mut text, actor, tag);
    text.append(" has just created channel (");
    text.append(channel);
    text.append(")");
    assert(text@ =~= channel_created_text(actor, tag@, channel@));
    text
}

/// Words the notice that `actor` kicked or banned `removed`.
pub fn member_removed_notice(
    actor: u64,
    tag: &str,
    removed: u64,
    removed_tag: &str,
) -> (text: String)
    ensures
        text@ == member_removed_text(actor, tag@, removed, removed_tag@),
{
    let mut text = String::new();
    append_actor(&mut text, actor, tag);
    text.append(" has just kicked/banned ");
    append_actor(&mut text, removed, removed_tag);
    assert(text@ =~= member_removed_text(actor, tag@, removed, removed_tag@));
    text
}

/// Words the notice that `actor` loses the privileged roles.
pub fn role_removed_notice(actor: u64, tag: &str) -> (text: String)
    ensures
        text@ == role_removed_text(actor, tag@),
{
    let mut text = String::new();
    append_actor(&mut text, actor, tag);
    text.append(" has had their admin role removed");
    assert(text@ =~= role_removed_text(actor, tag@));
    text
}

/// Words the reply to a sender who is still cooling down, given the
/// remaining wait in words.
pub fn cooldown_notice(remaining: &str) -> (text: String)
    ensures
        text@ == cooldown_text(remaining@),
{
    let mut text = String::new();
    text.append("You can only send one confession every 30 minutes! ");
    text.append("Time remaining: ");
    text.append(remaining);
    assert(text@ =~= cooldown_text(remaining@));
    text
}

/// Words the reply to a sender who has to wait `remaining_secs` more
/// seconds.
pub fn cooldown_reply(remaining_secs: u64) -> (text: String)
    ensures
        text@ == cooldown_text(formatted_duration(remaining_secs)),
{
    let remaining = format_duration(remaining_secs);
    cooldown_notice(remaining.as_str())
}

/// Words the post that carries a confession to the public channel.
pub fn confession_post(content: &str) -> (text: String)
    ensures
        text@ == confession_text(content@),
{
    let mut text = String::from_str("**CONFESSION**\n");
    text.append(content);
    text
}

/// Words the reply to a sender whose confession was posted.
pub fn confession_ack() -> (text: String)
    ensures
        text@ == confession_ack_text(),
{
    String::from_str("Sent confession <3")
}

} // verus!
