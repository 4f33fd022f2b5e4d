use chuckle::random::parse_custom_id;
use chuckle::routing::{
    component_kind, forum_log_message, is_circle_back_command, is_circle_back_modal,
    is_new_thread, is_review_comment_event, route_interaction, user_from_interaction,
    ComponentKind, InteractionKind, InteractionRoute,
};

#[test]
fn interactions_are_routed() {
    assert_eq!(route_interaction(false, InteractionKind::Ping, false), InteractionRoute::Ignore);
    assert_eq!(route_interaction(true, InteractionKind::ApplicationCommand, true), InteractionRoute::Framework);
    assert_eq!(route_interaction(true, InteractionKind::ApplicationCommand, false), InteractionRoute::Ignore);
    assert_eq!(route_interaction(true, InteractionKind::ModalSubmit, false), InteractionRoute::Framework);
    assert_eq!(route_interaction(true, InteractionKind::MessageComponent, false), InteractionRoute::MessageComponent);
}

#[test]
fn custom_ids_and_kinds() {
    assert_eq!(
        parse_custom_id("550e8400-e29b-41d4-a716-446655440000"),
        Some(0x550e8400_e29b_41d4_a716_446655440000)
    );
    assert_eq!(parse_custom_id("not-a-uuid"), None);
    assert_eq!(component_kind("poll_option"), ComponentKind::PollOption);
    assert_eq!(component_kind("poll_clear"), ComponentKind::PollClear);
    assert_eq!(component_kind("poll"), ComponentKind::Unknown);
    assert!(is_circle_back_modal("circle_back"));
    assert!(!is_circle_back_modal("circle"));
    assert!(is_circle_back_command("Circle back"));
    assert!(is_review_comment_event("pull_request_review_comment"));
    assert!(!is_review_comment_event("push"));
}

#[test]
fn thread_logging() {
    assert!(is_new_thread(Some(1), Some(2), Some(true)));
    assert!(!is_new_thread(None, None, Some(true)));
    assert!(!is_new_thread(Some(1), None, None));
    assert!(!is_new_thread(None, Some(2), Some(true)));
    assert!(!is_new_thread(Some(1), None, Some(true)));
    assert!(!is_new_thread(Some(1), Some(2), Some(false)));
    assert_eq!(forum_log_message(1, 2, 3), "<@1> created <#2> in <#3>");
}

#[test]
fn interaction_user() {
    assert_eq!(user_from_interaction(true, Some("member"), None), "member");
    assert_eq!(user_from_interaction(false, None, Some("user")), "user");
}
