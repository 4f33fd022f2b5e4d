use chuckle::poll::{
    build_poll, new_poll, poll_description, poll_emojis, poll_error_message, ButtonStyle,
    PollClearCustomId, PollError, PollOptionCustomId, PollOptions,
};

#[test]
fn poll_options_between_two_and_twenty_four() {
    assert!(PollOptions::parse(1).is_err());
    assert_eq!(PollOptions::parse(2).unwrap(), PollOptions(2));
    assert_eq!(PollOptions::parse(24).unwrap(), PollOptions(24));
    let err = PollOptions::parse(25).unwrap_err();
    assert_eq!(err.argument_name, "options");
    assert_eq!(err.argument_type, "PollOptions");
    assert_eq!(err.error, "Polls must have between 2 and 25 options.");
    assert!(err.required);
    assert_eq!(PollOptions::limits(), (2, 24));
    for v in i8::MIN..=i8::MAX {
        let (lo, hi) = PollOptions::limits();
        assert_eq!(PollOptions::parse(v).is_ok(), lo <= v as i64 && v as i64 <= hi);
    }
}

fn ids(base: u128, n: usize) -> Vec<u128> {
    (0..n as u128).map(|i| base + i).collect()
}

#[test]
fn seven_options_fill_a_row_then_share_the_next_with_clear() {
    let emojis: Vec<char> = "abcdefg".chars().collect();
    let plan = build_poll(7, 2, "ann", 1, &ids(100, 7), &ids(200, 7), 999, &emojis);
    assert_eq!(plan.rows.len(), 2);
    assert_eq!(plan.rows[0].len(), 5);
    assert_eq!(plan.rows[1].len(), 3);
    let labels: Vec<&str> = plan.rows.iter().flatten().map(|b| b.label.as_str()).collect();
    assert_eq!(labels, vec!["1", "2", "3", "4", "5", "6", "7", "Clear Votes"]);
    assert_eq!(plan.rows[0][2].custom_id, 202);
    assert_eq!(plan.rows[0][2].emoji, Some('c'));
    assert_eq!(plan.rows[0][2].style, ButtonStyle::Secondary);
    let clear = &plan.rows[1][2];
    assert_eq!((clear.custom_id, clear.emoji, clear.style), (999, None, ButtonStyle::Danger));
    assert_eq!(plan.entries.len(), 7);
    assert_eq!(plan.entries[6].custom_id, 206);
    assert_eq!(plan.entries[6].data, PollOptionCustomId { id: 106, poll_id: 1, option: 7 });
    assert_eq!(plan.clear, PollClearCustomId { poll_id: 1 });
    assert_eq!(plan.clear_id, 999);
    assert_eq!(plan.votes, 2);
}

#[test]
fn full_last_row_puts_clear_in_its_own_row() {
    let emojis: Vec<char> = "abcdefghij".chars().collect();
    let plan = build_poll(10, 1, "ann", 1, &ids(100, 10), &ids(200, 10), 7, &emojis);
    assert_eq!(plan.rows.iter().map(|r| r.len()).collect::<Vec<_>>(), vec![5, 5, 1]);
    assert_eq!(plan.rows[2][0].label, "Clear Votes");
}

#[test]
fn description_text() {
    assert_eq!(
        poll_description("ann", 1),
        "@ann created a new poll!\nVote for up to `1` option by clicking the buttons below.\n### Information\n\n- If you've already voted, and you'd like to change your vote:\n  - votes = 1: click a different option\n  - votes > 1: click the trash can button to reset your votes\n- If you want to clear your vote, click the trash can button.\n- If you have multiple votes, you can vote for the same option multiple times.\n"
    );
    assert!(poll_description("bo", 3).starts_with("@bo created a new poll!\nVote for up to `3` options by"));
    assert!(poll_description("bo", 3).contains("change your votes:"));
}

#[test]
fn votes_must_fit_the_options() {
    assert_eq!(new_poll(4, Some(0), "ann").err(), Some(PollError::InvalidVotes));
    assert_eq!(new_poll(4, Some(4), "ann").err(), Some(PollError::InvalidVotes));
    assert_eq!(new_poll(1, None, "ann").err(), Some(PollError::InvalidVotes));
    assert_eq!(new_poll(30, Some(-1), "ann").err(), Some(PollError::InvalidVotes));
    assert_eq!(
        poll_error_message(PollError::InvalidVotes),
        "Votes must be greater than `0` and at least one less than `options`."
    );
}

#[test]
fn new_poll_uses_random_ids_and_pool_emojis() {
    let plan = new_poll(24, Some(3), "ann").unwrap();
    assert_eq!(plan.votes, 3);
    assert_eq!(plan.rows.iter().map(|r| r.len()).collect::<Vec<_>>(), vec![5, 5, 5, 5, 5]);
    let pool = poll_emojis();
    assert_eq!(pool.len(), 27);
    let mut left = pool.clone();
    for b in plan.rows.iter().flatten().filter(|b| b.style == ButtonStyle::Secondary) {
        let e = b.emoji.unwrap();
        let pos = left.iter().position(|x| *x == e).expect("emoji from the pool, once");
        left.remove(pos);
    }
    assert_eq!(left.len(), 3);
    assert!(plan.entries.iter().all(|e| e.data.poll_id == plan.poll_id));
    assert_eq!((plan.poll_id >> 76) & 0xf, 4);
    let v4 = |id: u128| (id >> 76) & 0xf == 4 && (id >> 62) & 0x3 == 2;
    assert!(v4(plan.poll_id) && v4(plan.clear_id));
    assert!(plan.entries.iter().all(|e| v4(e.custom_id) && v4(e.data.id)));
    let defaulted = new_poll(2, None, "ann").unwrap();
    assert_eq!(defaulted.votes, 1);
}
