use chuckle::threads::{add_role_message, join_with_and, members_with_role, mention_text, Member};

fn strings(items: &[&str]) -> Vec<String> {
    items.iter().map(|s| s.to_string()).collect()
}

#[test]
fn join_with_and_by_count() {
    assert_eq!(join_with_and(&strings(&[]), ", "), "");
    assert_eq!(join_with_and(&strings(&["a"]), ", "), "a");
    assert_eq!(join_with_and(&strings(&["a", "b"]), ", "), "a and b");
    assert_eq!(join_with_and(&strings(&["a", "b", "c"]), ", "), "a, b, and c");
    assert_eq!(join_with_and(&strings(&["a", "b", "c", "d"]), "; "), "a; b; c; and d");
}

#[test]
fn members_with_role_keeps_order() {
    let members = vec![
        Member { user_id: 1, roles: vec![10, 20] },
        Member { user_id: 2, roles: vec![30] },
        Member { user_id: 3, roles: vec![20] },
        Member { user_id: 4, roles: vec![] },
    ];
    assert_eq!(members_with_role(&members, 20), vec![1, 3]);
    assert_eq!(members_with_role(&members, 99), Vec::<u64>::new());
}

#[test]
fn add_role_reply_counts_and_mentions() {
    assert_eq!(mention_text(5), "<@5>");
    assert_eq!(
        add_role_message(&vec![1]),
        "Successfully added 1 member to the thread: <@1>"
    );
    assert_eq!(
        add_role_message(&vec![1, 22, 333]),
        "Successfully added 3 members to the thread: <@1>, <@22>, and <@333>"
    );
    assert_eq!(
        add_role_message(&vec![]),
        "Successfully added 0 members to the thread: "
    );
}
