use chuckle::pr_comments::{
    github_user_url, link_github_failure, link_github_reply, pr_comments_reply,
    pr_comments_target,
};

#[test]
fn target_prefers_given_values_then_defaults() {
    let t = pr_comments_target(&Some("o".into()), &None, &Some("d".into()), &Some("r".into())).ok().unwrap();
    assert_eq!((t.owner.as_str(), t.repo.as_str()), ("o", "r"));
    let e = pr_comments_target(&None, &Some("r".into()), &None, &None).err().unwrap();
    assert!(e.ephemeral);
    assert_eq!(
        e.content,
        "Please set a default repository and owner with `/config default-repo set` and `/config default-org`."
    );
    assert!(pr_comments_target(&Some("".into()), &Some("r".into()), &Some("d".into()), &None).is_err());
}

#[test]
fn registration_replies() {
    let t = pr_comments_target(&Some("o".into()), &Some("r".into()), &None, &None).ok().unwrap();
    let r = pr_comments_reply(false, &t, 12, 99, "abc");
    assert!(!r.ephemeral);
    assert_eq!(r.content, "Review output for `o/r#12` to post in <#99> (`abc`).");
    let r = pr_comments_reply(true, &t, -1, 99, "abc");
    assert_eq!(r.content, "Revised the review output for `o/r#-1` to post in <#99> (`abc`).");
}

#[test]
fn github_linking() {
    assert_eq!(github_user_url("octo"), "https://api.github.com/users/octo");
    let r = link_github_reply("octo", 583231);
    assert_eq!(r.content, "Successfully registered your GitHub username as `octo` (`583231`).");
    assert!(!r.ephemeral);
    let r = link_github_failure("ghost", "NotFound");
    assert!(r.ephemeral);
    assert_eq!(
        r.content,
        "\n                        Couldn't find the GitHub user `ghost`.\n                        ```\n                        NotFound\n                        ```\n                    "
    );
}
