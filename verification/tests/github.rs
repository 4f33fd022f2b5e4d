use chuckle::github::{
    code_block, code_block_checked, comment_author_id, comment_line_window, fetch_raw_file,
    file_extension, json_field_integer, render_code_block, review_comment_message,
    review_output_key, Base, Comment, CommentLinks, Html, Organization, PullRequest,
    PullRequestLinks, PullRequestReviewComment, Reactions, Repo, Sender,
};

fn default_pull_request_review_comment() -> PullRequestReviewComment {
    PullRequestReviewComment {
        action: String::new(),
        comment: default_comment(),
        pull_request: default_pull_request(),
        repository: default_repo(),
        organization: default_organization(),
        sender: default_sender(),
    }
}

fn default_comment() -> Comment {
    Comment {
        url: String::new(),
        pull_request_review_id: 0,
        id: 0,
        node_id: String::new(),
        diff_hunk: String::new(),
        path: String::new(),
        commit_id: String::new(),
        original_commit_id: String::new(),
        user: default_sender(),
        body: String::new(),
        created_at: String::new(),
        updated_at: String::new(),
        html_url: String::new(),
        pull_request_url: String::new(),
        author_association: String::new(),
        links: default_comment_links(),
        reactions: default_reactions(),
        start_line: None,
        original_start_line: None,
        start_side: None,
        line: None,
        original_line: 0,
        side: String::new(),
        original_position: 0,
        position: 0,
        subject_type: String::new(),
    }
}

fn default_comment_links() -> CommentLinks {
    CommentLinks {
        links_self: default_html(),
        html: default_html(),
        pull_request: default_html(),
    }
}

fn default_html() -> Html {
    Html {
        href: String::new(),
    }
}

fn default_reactions() -> Reactions {
    Reactions {
        url: String::new(),
        total_count: 0,
        the_1: 0,
        reactions_1: 0,
        laugh: 0,
        hooray: 0,
        confused: 0,
        heart: 0,
        rocket: 0,
        eyes: 0,
    }
}

fn default_sender() -> Sender {
    Sender {
        login: String::new(),
        id: 0,
        node_id: String::new(),
        avatar_url: String::new(),
        gravatar_id: String::new(),
        url: String::new(),
        html_url: String::new(),
        followers_url: String::new(),
        following_url: String::new(),
        gists_url: String::new(),
        starred_url: String::new(),
        subscriptions_url: String::new(),
        organizations_url: String::new(),
        repos_url: String::new(),
        events_url: String::new(),
        received_events_url: String::new(),
        sender_type: String::new(),
        site_admin: false,
    }
}

fn default_organization() -> Organization {
    Organization {
        login: String::new(),
        id: 0,
        node_id: String::new(),
        url: String::new(),
        repos_url: String::new(),
        events_url: String::new(),
        hooks_url: String::new(),
        issues_url: String::new(),
        members_url: String::new(),
        public_members_url: String::new(),
        avatar_url: String::new(),
        description: String::new(),
    }
}

fn default_pull_request() -> PullRequest {
    PullRequest {
        url: String::new(),
        id: 0,
        node_id: String::new(),
        html_url: String::new(),
        diff_url: String::new(),
        patch_url: String::new(),
        issue_url: String::new(),
        number: 0,
        state: String::new(),
        locked: false,
        title: String::new(),
        user: default_sender(),
        body: None,
        created_at: String::new(),
        updated_at: String::new(),
        closed_at: None,
        merged_at: None,
        merge_commit_sha: None,
        assignee: None,
        assignees: Vec::new(),
        requested_reviewers: Vec::new(),
        requested_teams: Vec::new(),
        labels: Vec::new(),
        milestone: None,
        draft: false,
        commits_url: String::new(),
        review_comments_url: String::new(),
        review_comment_url: String::new(),
        comments_url: String::new(),
        statuses_url: String::new(),
        head: default_base(),
        base: default_base(),
        links: default_pull_request_links(),
        author_association: String::new(),
        auto_merge: None,
        active_lock_reason: None,
    }
}

fn default_base() -> Base {
    Base {
        label: String::new(),
        base_ref: String::new(),
        sha: String::new(),
        user: default_sender(),
        repo: default_repo(),
    }
}

fn default_repo() -> Repo {
    Repo {
        id: 0,
        node_id: String::new(),
        name: String::new(),
        full_name: String::new(),
        private: false,
        owner: default_sender(),
        html_url: String::new(),
        description: String::new(),
        fork: false,
        url: String::new(),
        forks_url: String::new(),
        keys_url: String::new(),
        collaborators_url: String::new(),
        teams_url: String::new(),
        hooks_url: String::new(),
        issue_events_url: String::new(),
        events_url: String::new(),
        assignees_url: String::new(),
        branches_url: String::new(),
        tags_url: String::new(),
        blobs_url: String::new(),
        git_tags_url: String::new(),
        git_refs_url: String::new(),
        trees_url: String::new(),
        statuses_url: String::new(),
        languages_url: String::new(),
        stargazers_url: String::new(),
        contributors_url: String::new(),
        subscribers_url: String::new(),
        subscription_url: String::new(),
        commits_url: String::new(),
        git_commits_url: String::new(),
        comments_url: String::new(),
        issue_comment_url: String::new(),
        contents_url: String::new(),
        compare_url: String::new(),
        merges_url: String::new(),
        archive_url: String::new(),
        downloads_url: String::new(),
        issues_url: String::new(),
        pulls_url: String::new(),
        milestones_url: String::new(),
        notifications_url: String::new(),
        labels_url: String::new(),
        releases_url: String::new(),
        deployments_url: String::new(),
        created_at: String::new(),
        updated_at: String::new(),
        pushed_at: String::new(),
        git_url: String::new(),
        ssh_url: String::new(),
        clone_url: String::new(),
        svn_url: String::new(),
        homepage: None,
        size: 0,
        stargazers_count: 0,
        watchers_count: 0,
        language: String::new(),
        has_issues: false,
        has_projects: false,
        has_downloads: false,
        has_wiki: false,
        has_pages: false,
        has_discussions: false,
        forks_count: 0,
        mirror_url: None,
        archived: false,
        disabled: false,
        open_issues_count: 0,
        license: None,
        allow_forking: false,
        is_template: false,
        web_commit_signoff_required: false,
        topics: Vec::new(),
        visibility: String::new(),
        forks: 0,
        open_issues: 0,
        watchers: 0,
        default_branch: String::new(),
        allow_squash_merge: None,
        allow_merge_commit: None,
        allow_rebase_merge: None,
        allow_auto_merge: None,
        delete_branch_on_merge: None,
        allow_update_branch: None,
        use_squash_pr_title_as_default: None,
        squash_merge_commit_message: None,
        squash_merge_commit_title: None,
        merge_commit_message: None,
        merge_commit_title: None,
    }
}

fn default_pull_request_links() -> PullRequestLinks {
    PullRequestLinks {
        links_self: default_html(),
        html: default_html(),
        issue: default_html(),
        comments: default_html(),
        review_comments: default_html(),
        review_comment: default_html(),
        commits: default_html(),
        statuses: default_html(),
    }
}
fn sample_comment() -> PullRequestReviewComment {
    let mut data = default_pull_request_review_comment();
    data.comment.path = "src/Main.RS".to_string();
    data.comment.original_line = 3;
    data.comment.line = Some(3);
    data.comment.body = "Looks off".to_string();
    data.comment.links.html.href = "https://github.com/o/r/pull/1#c".to_string();
    data.comment.user.id = 77;
    data.repository.owner.login = "o".to_string();
    data.repository.name = "r".to_string();
    data.pull_request.head.base_ref = "feature".to_string();
    data.pull_request.number = 116;
    data
}

const FILE: &str = "line1\nline2\r\nline3\nline4\nline5\nline6\nline7\nline8\n";

#[test]
fn raw_file_request_is_built_from_its_parts() {
    let req = fetch_raw_file("tok", "trufflehq", "chuckle", "HEAD", "README.md");
    assert_eq!(
        req.url,
        "https://api.github.com/repos/trufflehq/chuckle/contents/README.md?ref=HEAD"
    );
    assert_eq!(req.authorization, "token tok");
    assert_eq!(req.accept, "application/vnd.github.raw");
}

#[test]
fn line_window_of_one_line_and_of_a_range() {
    assert_eq!(comment_line_window(None, 3, None), (0, 3));
    assert_eq!(comment_line_window(Some(3), 9, Some(3)), (0, 3));
    assert_eq!(comment_line_window(None, 8, None), (3, 5));
    assert_eq!(comment_line_window(None, 5, None), (0, 5));
    assert_eq!(comment_line_window(None, 6, None), (1, 5));
    assert_eq!(comment_line_window(None, 0, None), (0, 0));
    assert_eq!(comment_line_window(Some(2), 9, Some(4)), (1, 3));
    assert_eq!(comment_line_window(None, 2, Some(4)), (1, 3));
}

#[test]
fn code_block_selects_lines_and_strips_carriage_returns() {
    assert_eq!(
        render_code_block("rs", FILE, 1, 2),
        "```rs\nline2\nline3\n```"
    );
    assert_eq!(render_code_block("rs", FILE, 7, 5), "```rs\nline8\n```");
    assert_eq!(render_code_block("rs", FILE, 20, 5), "```rs\n\n```");
    assert_eq!(render_code_block("txt", "", 0, 5), "```txt\n\n```");
}

#[test]
fn file_extension_is_lowercased_suffix() {
    assert_eq!(file_extension("src/Main.RS"), "rs");
    assert_eq!(file_extension("a.tar.GZ"), "gz");
    assert_eq!(file_extension("Makefile"), "makefile");
    assert_eq!(file_extension("dir.d/"), "d/");
}

#[test]
fn json_fields_read_as_integers() {
    assert_eq!(json_field_integer(&Some("12".to_string())), Some(12));
    assert_eq!(json_field_integer(&Some("-3".to_string())), Some(-3));
    assert_eq!(json_field_integer(&Some("\"12\"".to_string())), None);
    assert_eq!(json_field_integer(&Some("1.5".to_string())), None);
    assert_eq!(json_field_integer(&None), None);
}

#[test]
fn code_block_of_a_comment() {
    let data = sample_comment();
    assert_eq!(
        code_block(&data, FILE),
        "```rs\nline1\nline2\nline3\n```"
    );
    let mut late = sample_comment();
    late.comment.line = Some(7);
    late.comment.original_line = 7;
    assert_eq!(
        code_block(&late, FILE),
        "```rs\nline3\nline4\nline5\nline6\nline7\n```"
    );
    let mut ranged = sample_comment();
    ranged.comment.start_line = Some("2".to_string());
    ranged.comment.line = Some(3);
    assert_eq!(code_block(&ranged, FILE), "```rs\nline2\nline3\n```");
}

#[test]
fn code_block_checked_refuses_ranges_it_cannot_count() {
    let mut data = sample_comment();
    data.comment.line = Some(0);
    data.comment.original_line = 0;
    assert_eq!(code_block_checked(&data, FILE), Some("```rs\n\n```".to_string()));
    let mut from_zero = sample_comment();
    from_zero.comment.start_line = Some("0".to_string());
    from_zero.comment.line = Some(3);
    assert_eq!(code_block_checked(&from_zero, FILE), None);
    let mut backwards = sample_comment();
    backwards.comment.start_line = Some("5".to_string());
    backwards.comment.line = Some(3);
    assert_eq!(code_block_checked(&backwards, FILE), None);
    assert_eq!(
        code_block_checked(&sample_comment(), FILE),
        Some(code_block(&sample_comment(), FILE))
    );
}

#[test]
fn review_message_with_and_without_author() {
    let mut data = sample_comment();
    data.comment.start_line = Some("2".to_string());
    let msg = review_comment_message(&data, &Some("42".to_string()), "```rs\nx\n```");
    assert_eq!(
        msg,
        "### [New Comment](<<@42>>) from https://github.com/o/r/pull/1#c\nLooks off\n\n[`src/Main.RS`](https://github.com/o/r/blob/feature/src/Main.RS) `(L2-3)`\n```rs\nx\n```"
    );
    let msg = review_comment_message(&sample_comment(), &None, "");
    assert_eq!(
        msg,
        "### [New Comment](<Unknown>) from https://github.com/o/r/pull/1#c\nLooks off\n\n[`src/Main.RS`](https://github.com/o/r/blob/feature/src/Main.RS)\n"
    );
}

#[test]
fn review_keys_use_database_integers() {
    let data = sample_comment();
    assert_eq!(review_output_key(&data), (116, "o".to_string(), "r".to_string()));
    assert_eq!(comment_author_id(&data), 77);
    let mut big = sample_comment();
    big.pull_request.number = (1i64 << 32) + 5;
    assert_eq!(review_output_key(&big).0, 5);
}
