use guild_warden::text::{
    append_decimal, channel_created_notice, confession_ack, confession_post, cooldown_notice,
    cooldown_reply, member_removed_notice, role_removed_notice, tag_or_unknown,
};

fn decimal(n: u64) -> String {
    let mut text = String::new();
    append_decimal(&mut text, n);
    text
}

#[test]
fn decimal_of_single_digits() {
    let digits = ["0", "1", "2", "3", "4", "5", "6", "7", "8", "9"];
    for (n, expected) in digits.iter().enumerate() {
        assert_eq!(decimal(n as u64), *expected);
    }
}

#[test]
fn decimal_of_longer_numbers() {
    assert_eq!(decimal(10), "10");
    assert_eq!(decimal(99), "99");
    assert_eq!(decimal(100), "100");
    assert_eq!(decimal(1_000_000), "1000000");
    assert_eq!(decimal(807_224_123_691_761_704), "807224123691761704");
    assert_eq!(decimal(u64::MAX), "18446744073709551615");
}

#[test]
fn decimal_agrees_with_the_standard_rendering() {
    let mut n: u64 = 1;
    for _ in 0..200 {
        assert_eq!(decimal(n), n.to_string());
        n = n.wrapping_mul(6_364_136_223_846_793_005).wrapping_add(1_442_695_040_888_963_407);
    }
}

#[test]
fn append_decimal_keeps_what_was_there() {
    let mut text = String::from("id ");
    append_decimal(&mut text, 42);
    assert_eq!(text, "id 42");
}

#[test]
fn tag_falls_back_to_unknown_user() {
    assert_eq!(tag_or_unknown(Some("mallory#0001")), "mallory#0001");
    assert_eq!(tag_or_unknown(Some("")), "");
    assert_eq!(tag_or_unknown(None), "unknown-user");
}

#[test]
fn channel_created_notice_wording() {
    assert_eq!(
        channel_created_notice(1234, "mallory#0001", "general"),
        "<@1234> (mallory#0001) has just created channel (general)"
    );
}

#[test]
fn member_removed_notice_wording() {
    assert_eq!(
        member_removed_notice(1234, "mallory#0001", 5678, "bob#0002"),
        "<@1234> (mallory#0001) has just kicked/banned <@5678> (bob#0002)"
    );
}

#[test]
fn role_removed_notice_wording() {
    assert_eq!(
        role_removed_notice(1234, "mallory#0001"),
        "<@1234> (mallory#0001) has had their admin role removed"
    );
}

#[test]
fn cooldown_notice_wording() {
    assert_eq!(
        cooldown_notice("20m"),
        "You can only send one confession every 30 minutes! Time remaining: 20m"
    );
}

#[test]
fn cooldown_reply_puts_the_wait_in_words() {
    assert_eq!(
        cooldown_reply(1200),
        "You can only send one confession every 30 minutes! Time remaining: 20m"
    );
    assert_eq!(
        cooldown_reply(1799),
        "You can only send one confession every 30 minutes! Time remaining: 29m 59s"
    );
    assert_eq!(
        cooldown_reply(1),
        "You can only send one confession every 30 minutes! Time remaining: 1s"
    );
    assert_eq!(
        cooldown_reply(5405),
        "You can only send one confession every 30 minutes! Time remaining: 1h 30m 5s"
    );
}

#[test]
fn cooldown_reply_agrees_with_humantime() {
    for secs in [0u64, 59, 60, 1800, 86_400, 31_557_600, u64::MAX] {
        let expected = format!(
            "You can only send one confession every 30 minutes! Time remaining: {}",
            humantime::format_duration(std::time::Duration::from_secs(secs))
        );
        assert_eq!(cooldown_reply(secs), expected);
    }
}

#[test]
fn confession_post_wording() {
    assert_eq!(confession_post("i like turtles"), "**CONFESSION**\ni like turtles");
    assert_eq!(confession_post(""), "**CONFESSION**\n");
}

#[test]
fn confession_ack_wording() {
    assert_eq!(confession_ack(), "Sent confession <3");
}
