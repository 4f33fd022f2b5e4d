use chuckle::circle_back::{
    circle_back_confirmation, circle_back_delay, confirmation_from_words,
    invalid_duration_message, reminder_message, DueNotification,
};

#[test]
fn durations_are_read() {
    assert_eq!(circle_back_delay("20m"), Some(1_200_000));
    assert_eq!(circle_back_delay("2d"), Some(172_800_000));
    assert_eq!(circle_back_delay("1hr"), Some(3_600_000));
    assert_eq!(circle_back_delay(""), None);
    assert_eq!(circle_back_delay("soon"), None);
    assert_eq!(circle_back_delay("\u{663}"), None);
    assert_eq!(circle_back_delay("\u{ff11}m"), None);
    // a long s is no numeral: `ms` reads the answer, and gives 0
    assert_eq!(circle_back_delay("5\u{17f}"), Some(0));
    assert!(invalid_duration_message().starts_with("The duration you provided was invalid."));
}

#[test]
fn confirmations_name_the_duration() {
    assert_eq!(circle_back_confirmation(1_200_000), "Sounds good! I'll remind you in 20 minutes.");
    assert_eq!(circle_back_confirmation(172_800_000), "Sounds good! I'll remind you in 2 days.");
    assert_eq!(confirmation_from_words("1 hour"), "Sounds good! I'll remind you in 1 hour.");
}

#[test]
fn reminder_links_the_message() {
    let n = DueNotification { author_id: 4, guild_id: 1, channel_id: 2, message_id: 3 };
    assert_eq!(
        reminder_message(&n),
        "Time to circle back to https://discord.com/channels/1/2/3 from <@4>!"
    );
}
