use chuckle::breakout::{
    breakout_done_message, no_category_message, plan_breakout_cleanup, plan_breakout_rooms,
    VoiceState,
};
use chuckle::chunkify::RemainderStrategy;

#[test]
fn breakout_refusals() {
    let err = plan_breakout_rooms(&None, 5, vec![1, 2, 3], 2, RemainderStrategy::Exclude).err();
    assert_eq!(err, Some("No breakout rooms category set.".to_string()));
    assert_eq!(no_category_message(), "No breakout rooms category set.");
    let err = plan_breakout_rooms(&Some("9".into()), 5, vec![1], 2, RemainderStrategy::Exclude).err();
    assert_eq!(
        err,
        Some("There are fewer people in <#5> than the size of your breakout rooms.".to_string())
    );
}

#[test]
fn breakout_rooms_hold_everyone_once() {
    let people: Vec<u64> = (1..=7).collect();
    let plan = plan_breakout_rooms(&Some("9".into()), 5, people.clone(), 3, RemainderStrategy::Overflow).unwrap();
    assert_eq!(plan.category_id, "9");
    assert_eq!(plan.names, vec!["Breakout Room 0", "Breakout Room 1"]);
    assert_eq!(plan.rooms.iter().map(|r| r.len()).collect::<Vec<_>>(), vec![3, 4]);
    let mut all: Vec<u64> = plan.rooms.concat();
    all.sort();
    assert_eq!(all, people);
    let plan = plan_breakout_rooms(&Some("9".into()), 5, people, 3, RemainderStrategy::Exclude).unwrap();
    assert_eq!(plan.rooms.iter().map(|r| r.len()).collect::<Vec<_>>(), vec![3, 3]);
    assert_eq!(breakout_done_message(), "Pong!");
}

#[test]
fn cleanup_finds_breakout_rooms() {
    let states = vec![
        VoiceState { user_id: 1, channel_id: 100, parent_id: Some(9) },
        VoiceState { user_id: 2, channel_id: 200, parent_id: Some(8) },
        VoiceState { user_id: 3, channel_id: 100, parent_id: Some(9) },
        VoiceState { user_id: 4, channel_id: 300, parent_id: None },
        VoiceState { user_id: 5, channel_id: 400, parent_id: Some(9) },
    ];
    let plan = plan_breakout_cleanup(&states, "9");
    assert_eq!(plan.moves, vec![1, 3, 5]);
    assert_eq!(plan.channels, vec![100, 400]);
    let plan = plan_breakout_cleanup(&states, "09");
    assert!(plan.moves.is_empty() && plan.channels.is_empty());
}
