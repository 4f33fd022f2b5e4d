use chuckle::settings::{
    breakout_category_list, breakout_category_set, breakout_category_unset, config_list,
    default_org_list, default_org_set, default_org_unset, forum_log_list, forum_log_set,
    forum_log_unset,
};

#[test]
fn list_replies() {
    let r = breakout_category_list(&None);
    assert_eq!((r.content.as_str(), r.ephemeral), ("There is no current Breakout Rooms category.", true));
    let r = breakout_category_list(&Some("12".into()));
    assert_eq!(r.content, "The current default current Breakout Rooms category is <#12>.");
    assert_eq!(default_org_list(&None).content, "There is no default GitHub organization.");
    assert_eq!(default_org_list(&Some("truffle".into())).content, "The current default GitHub organization is `truffle`");
    assert_eq!(forum_log_list(&None).content, "No forum log channel set.");
    assert_eq!(forum_log_list(&Some("3".into())).content, "The current forum log channel is <#3>");
}

#[test]
fn set_and_unset_replies() {
    let r = breakout_category_set(true, 12);
    assert_eq!((r.content.as_str(), r.ephemeral), ("Successfully set the current Breakout Rooms category to <#12>.", false));
    let r = breakout_category_set(false, 12);
    assert_eq!((r.content.as_str(), r.ephemeral), ("Failed to set the current Breakout Rooms category.", true));
    assert_eq!(forum_log_set(true, 4).content, "Successfully set the forum log channel to <#4>");
    assert_eq!(forum_log_set(false, 4).content, "Failed to set the forum log channel.");
    assert_eq!(default_org_set(true, "t").content, "Successfully set the default GitHub organization to `t`.");
    assert_eq!(default_org_set(false, "t").content, "Failed to set the default GitHub organization.");
    assert_eq!(breakout_category_unset(true).content, "Successfully unset the current Breakout Rooms category.");
    assert!(breakout_category_unset(false).ephemeral);
    assert_eq!(default_org_unset(false).content, "Failed to unset the default GitHub organization.");
    assert_eq!(forum_log_unset(true).content, "Successfully unset the forum log channel.");
}

#[test]
fn configuration_listing() {
    let r = config_list("Guild", &Some("1".into()), &None, &Some("repo".into()));
    assert!(!r.ephemeral);
    assert_eq!(
        r.content,
        "\n**Configuration for Guild**\n\nForum log channel: <#1>\nDefault organization: `None`\nDefault repository: `repo`\n"
    );
}
