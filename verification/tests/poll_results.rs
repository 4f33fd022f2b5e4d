use chuckle::poll_results::{
    all_votes_for_options, clear_votes, max_votes_message, poll_results, vote_action,
    vote_tallied_message, PollVote, VoteAction,
};

fn vote(option_id: u128, user: &str) -> PollVote {
    PollVote { option_id, user_id: user.to_string() }
}

#[test]
fn vote_actions() {
    assert_eq!(vote_action(0, 1), VoteAction::Insert);
    assert_eq!(vote_action(1, 1), VoteAction::Replace);
    assert_eq!(vote_action(2, 3), VoteAction::Insert);
    assert_eq!(vote_action(3, 3), VoteAction::Reject);
    assert_eq!(vote_action(0, 0), VoteAction::Reject);
    assert_eq!(vote_action(5, -1), VoteAction::Insert);
    // within the limit, no user ever holds more votes than allowed
    for limit in 1..6i32 {
        for existing in 0..=limit as usize {
            let after = match vote_action(existing, limit) {
                VoteAction::Insert => existing + 1,
                _ => existing,
            };
            assert!(after <= limit as usize);
        }
    }
}

#[test]
fn vote_replies() {
    assert_eq!(
        max_votes_message(),
        "You have already voted the maximum number of times.\nPlease click `Clear Votes` to clear your votes.\n"
    );
    assert_eq!(vote_tallied_message(), "Your vote has been tallied!");
}

#[test]
fn clearing_votes() {
    let c = clear_votes(Some(0));
    assert!(!c.delete);
    assert_eq!(c.message, "You have no votes to clear!");
    let c = clear_votes(None);
    assert!(!c.delete);
    let c = clear_votes(Some(3));
    assert!(c.delete);
    assert_eq!(c.message, "Your `3` votes have been cleared!");
}

#[test]
fn results_sorted_by_votes_with_voter_counts() {
    let options = vec![(10u128, 1i32), (20, 2), (30, 3)];
    let votes = vec![
        vote(10, "a"),
        vote(20, "b"),
        vote(20, "b"),
        vote(20, "c"),
        vote(10, "d"),
        vote(20, "b"),
    ];
    assert!(all_votes_for_options(&options, &votes));
    assert_eq!(
        poll_results(&options, &votes),
        "`2.` (4): <@b> (3), <@c> (1)\n`1.` (2): <@a> (1), <@d> (1)"
    );
}

#[test]
fn voters_ranked_by_votes_then_first_vote() {
    let options = vec![(1u128, 1i32), (2, 2)];
    let votes = vec![
        vote(1, "a"),
        vote(1, "b"),
        vote(1, "b"),
        vote(1, "c"),
        vote(1, "a"),
        vote(1, "b"),
    ];
    assert_eq!(poll_results(&options, &votes), "`1.` (6): <@b> (3), <@a> (2), <@c> (1)");
    let votes = vec![vote(2, "x"), vote(2, "y"), vote(2, "y"), vote(2, "x")];
    assert_eq!(poll_results(&options, &votes), "`2.` (4): <@x> (2), <@y> (2)");
}

#[test]
fn results_tie_keeps_first_voted_option_first() {
    let options = vec![(10u128, 1i32), (20, 2)];
    let votes = vec![vote(20, "x"), vote(10, "y")];
    assert_eq!(poll_results(&options, &votes), "`2.` (1): <@x> (1)\n`1.` (1): <@y> (1)");
    assert_eq!(poll_results(&options, &vec![]), "");
}

#[test]
fn results_show_ten_voters_then_how_many_more() {
    let options = vec![(1u128, 5i32)];
    let votes: Vec<PollVote> = (0..12).map(|i| vote(1, &format!("u{i}"))).collect();
    let text = poll_results(&options, &votes);
    assert!(text.starts_with("`5.` (12): <@u0> (1), "));
    assert!(text.ends_with("<@u9> (1) and 2 more"));
    assert!(!text.contains("u10"));
    let votes: Vec<PollVote> = (0..10).map(|i| vote(1, &format!("u{i}"))).collect();
    assert!(poll_results(&options, &votes).ends_with("<@u9> (1)"));
}

#[test]
fn votes_for_unknown_options_are_detected() {
    assert!(!all_votes_for_options(&vec![(1u128, 1i32)], &vec![vote(2, "a")]));
}
