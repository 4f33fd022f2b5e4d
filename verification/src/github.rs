//! GitHub's pull request review comments: the payload of the webhook, the
//! request that fetches the commented file, and the message that reports a
//! comment in its Discord thread.
use vstd::prelude::*;
use crate::text::{join, push_chars, push_signed_decimal, signed_decimal, text_lines, lines_of, join_range};

verus! {

/// The payload of a `pull_request_review_comment` webhook event.
#[derive(Debug, Clone)]
pub struct PullRequestReviewComment {
    pub action: String,
    pub comment: Comment,
    pub pull_request: PullRequest,
    pub repository: Repo,
    pub organization: Organization,
    pub sender: Sender,
}

/// A review comment on a pull request.
///
/// Fields that hold arbitrary JSON hold its text.
#[derive(Debug, Clone)]
pub struct Comment {
    pub url: String,
    pub pull_request_review_id: i64,
    pub id: i64,
    pub node_id: String,
    pub diff_hunk: String,
    pub path: String,
    pub commit_id: String,
    pub original_commit_id: String,
    pub user: Sender,
    pub body: String,
    pub created_at: String,
    pub updated_at: String,
    pub html_url: String,
    pub pull_request_url: String,
    pub author_association: String,
    pub links: CommentLinks,
    pub reactions: Reactions,
    pub start_line: Option<String>,
    pub original_start_line: Option<String>,
    pub start_side: Option<String>,
    pub line: Option<i64>,
    pub original_line: i64,
    pub side: String,
    pub original_position: i64,
    pub position: i64,
    pub subject_type: String,
}

/// The links of a review comment.
#[derive(Debug, Clone)]
pub struct CommentLinks {
    pub links_self: Html,
    pub html: Html,
    pub pull_request: Html,
}

/// A link.
#[derive(Debug, Clone)]
pub struct Html {
    pub href: String,
}

/// The reactions to a review comment.
#[derive(Debug, Clone)]
pub struct Reactions {
    pub url: String,
    pub total_count: i64,
    pub the_1: i64,
    pub reactions_1: i64,
    pub laugh: i64,
    pub hooray: i64,
    pub confused: i64,
    pub heart: i64,
    pub rocket: i64,
    pub eyes: i64,
}

/// A GitHub user.
#[derive(Debug, Clone)]
pub struct Sender {
    pub login: String,
    pub id: i64,
    pub node_id: String,
    pub avatar_url: String,
    pub gravatar_id: String,
    pub url: String,
    pub html_url: String,
    pub followers_url: String,
    pub following_url: String,
    pub gists_url: String,
    pub starred_url: String,
    pub subscriptions_url: String,
    pub organizations_url: String,
    pub repos_url: String,
    pub events_url: String,
    pub received_events_url: String,
    pub sender_type: String,
    pub site_admin: bool,
}

/// A GitHub organization.
#[derive(Debug, Clone)]
pub struct Organization {
    pub login: String,
    pub id: i64,
    pub node_id: String,
    pub url: String,
    pub repos_url: String,
    pub events_url: String,
    pub hooks_url: String,
    pub issues_url: String,
    pub members_url: String,
    pub public_members_url: String,
    pub avatar_url: String,
    pub description: String,
}

/// A pull request.
///
/// Fields that hold arbitrary JSON hold its text.
#[derive(Debug, Clone)]
pub struct PullRequest {
    pub url: String,
    pub id: i64,
    pub node_id: String,
    pub html_url: String,
    pub diff_url: String,
    pub patch_url: String,
    pub issue_url: String,
    pub number: i64,
    pub state: String,
    pub locked: bool,
    pub title: String,
    pub user: Sender,
    pub body: Option<String>,
    pub created_at: String,
    pub updated_at: String,
    pub closed_at: Option<String>,
    pub merged_at: Option<String>,
    pub merge_commit_sha: Option<String>,
    pub assignee: Option<String>,
    pub assignees: Vec<Option<String>>,
    pub requested_reviewers: Vec<Option<String>>,
    pub requested_teams: Vec<Option<String>>,
    pub labels: Vec<Option<String>>,
    pub milestone: Option<String>,
    pub draft: bool,
    pub commits_url: String,
    pub review_comments_url: String,
    pub review_comment_url: String,
    pub comments_url: String,
    pub statuses_url: String,
    pub head: Base,
    pub base: Base,
    pub links: PullRequestLinks,
    pub author_association: String,
    pub auto_merge: Option<String>,
    pub active_lock_reason: Option<String>,
}

/// One end (head or base) of a pull request.
#[derive(Debug, Clone)]
pub struct Base {
    pub label: String,
    pub base_ref: String,
    pub sha: String,
    pub user: Sender,
    pub repo: Repo,
}

/// A repository.
///
/// Fields that hold arbitrary JSON hold its text.
#[derive(Debug, Clone)]
pub struct Repo {
    pub id: i64,
    pub node_id: String,
    pub name: String,
    pub full_name: String,
    pub private: bool,
    pub owner: Sender,
    pub html_url: String,
    pub description: String,
    pub fork: bool,
    pub url: String,
    pub forks_url: String,
    pub keys_url: String,
    pub collaborators_url: String,
    pub teams_url: String,
    pub hooks_url: String,
    pub issue_events_url: String,
    pub events_url: String,
    pub assignees_url: String,
    pub branches_url: String,
    pub tags_url: String,
    pub blobs_url: String,
    pub git_tags_url: String,
    pub git_refs_url: String,
    pub trees_url: String,
    pub statuses_url: String,
    pub languages_url: String,
    pub stargazers_url: String,
    pub contributors_url: String,
    pub subscribers_url: String,
    pub subscription_url: String,
    pub commits_url: String,
    pub git_commits_url: String,
    pub comments_url: String,
    pub issue_comment_url: String,
    pub contents_url: String,
    pub compare_url: String,
    pub merges_url: String,
    pub archive_url: String,
    pub downloads_url: String,
    pub issues_url: String,
    pub pulls_url: String,
    pub milestones_url: String,
    pub notifications_url: String,
    pub labels_url: String,
    pub releases_url: String,
    pub deployments_url: String,
    pub created_at: String,
    pub updated_at: String,
    pub pushed_at: String,
    pub git_url: String,
    pub ssh_url: String,
    pub clone_url: String,
    pub svn_url: String,
    pub homepage: Option<String>,
    pub size: i64,
    pub stargazers_count: i64,
    pub watchers_count: i64,
    pub language: String,
    pub has_issues: bool,
    pub has_projects: bool,
    pub has_downloads: bool,
    pub has_wiki: bool,
    pub has_pages: bool,
    pub has_discussions: bool,
    pub forks_count: i64,
    pub mirror_url: Option<String>,
    pub archived: bool,
    pub disabled: bool,
    pub open_issues_count: i64,
    pub license: Option<String>,
    pub allow_forking: bool,
    pub is_template: bool,
    pub web_commit_signoff_required: bool,
    pub topics: Vec<Option<String>>,
    pub visibility: String,
    pub forks: i64,
    pub open_issues: i64,
    pub watchers: i64,
    pub default_branch: String,
    pub allow_squash_merge: Option<bool>,
    pub allow_merge_commit: Option<bool>,
    pub allow_rebase_merge: Option<bool>,
    pub allow_auto_merge: Option<bool>,
    pub delete_branch_on_merge: Option<bool>,
    pub allow_update_branch: Option<bool>,
    pub use_squash_pr_title_as_default: Option<bool>,
    pub squash_merge_commit_message: Option<String>,
    pub squash_merge_commit_title: Option<String>,
    pub merge_commit_message: Option<String>,
    pub merge_commit_title: Option<String>,
}

/// The links of a pull request.
#[derive(Debug, Clone)]
pub struct PullRequestLinks {
    pub links_self: Html,
    pub html: Html,
    pub issue: Html,
    pub comments: Html,
    pub review_comments: Html,
    pub review_comment: Html,
    pub commits: Html,
    pub statuses: Html,
}

/// The error of `serde_json`.
#[verifier::external_type_specification]
#[verifier::external_body]
pub struct ExJsonError(serde_json::Error);

/// What `serde_json::from_str::<i64>` gives for a JSON text: the integer it
/// denotes, when it denotes one that fits in an `i64`.
pub uninterp spec fn json_integer(text: Seq<char>) -> Option<i64>;

/// Reads a JSON text as an `i64` (`serde_json::from_str::<i64>`). The result
/// is named by `json_integer`; nothing more is claimed of it.
#[verifier::external_body]
fn parse_json_integer(text: &str) -> (res: Result<i64, serde_json::Error>)
    ensures
        res is Ok <==> json_integer(text@) is Some,
        res matches Ok(v) ==> json_integer(text@) == Some(v),
{
    serde_json::from_str::<i64>(text)
}

/// The integer that a JSON field holds, if it holds one.
pub fn json_field_integer(field: &Option<String>) -> (res: Option<i64>)
    ensures
        res == (match field {
            Some(text) => json_integer(text@),
            None => None,
        }),
{
    match field {
        Some(text) => match parse_json_integer(text.as_str()) {
            Ok(v) => Some(v),
            Err(_) => None,
        },
        None => None,
    }
}

/// What `str::to_lowercase` gives for a text.
pub uninterp spec fn lowercase(s: Seq<char>) -> Seq<char>;

/// The lowercase form of a text (`str::to_lowercase`), named by `lowercase`.
#[verifier::external_body]
fn to_lowercase(s: &str) -> (res: String)
    ensures
        res@ == lowercase(s@),
{
    s.to_lowercase()
}

/// The request that fetches a file of a repository at a commit, raw.
pub struct RawFileRequest {
    pub url: String,
    pub authorization: String,
    pub accept: String,
}

/// `https://api.github.com/repos/{owner}/{name}/contents/{path}?ref={commit}`
pub open spec fn raw_file_url(owner: Seq<char>, name: Seq<char>, commit: Seq<char>, path: Seq<char>) -> Seq<char> {
    "https://api.github.com/repos/"@ + owner + "/"@ + name + "/contents/"@ + path + "?ref="@ + commit
}

/// The request for the raw content of `path` in `owner/name` at `commit`,
/// authorized by `token`.
pub fn fetch_raw_file(token: &str, owner: &str, name: &str, commit: &str, path: &str) -> (res:
    RawFileRequest)
    ensures
        res.url@ == raw_file_url(owner@, name@, commit@, path@),
        res.authorization@ == "token "@ + token@,
        res.accept@ == "application/vnd.github.raw"@,
{
    let mut url = String::new();
    url.append("https://api.github.com/repos/");
    url.append(owner);
    url.append("/");
    url.append(name);
    url.append("/contents/");
    url.append(path);
    url.append("?ref=");
    url.append(commit);
    let mut authorization = String::new();
    authorization.append("token ");
    authorization.append(token);
    let mut accept = String::new();
    accept.append("application/vnd.github.raw");
    assert(url@ =~= raw_file_url(owner@, name@, commit@, path@));
    assert(authorization@ =~= "token "@ + token@);
    assert(accept@ =~= "application/vnd.github.raw"@);
    RawFileRequest { url, authorization, accept }
}


/// The line of a comment's range that it starts at, or its line when it
/// covers one line.
pub open spec fn first_line(start_line: Option<i64>, original_line: i64) -> i64 {
    match start_line {
        Some(s) => s,
        None => original_line,
    }
}

/// The line of a comment's range that it ends at.
pub open spec fn last_line(line: Option<i64>, original_line: i64) -> i64 {
    match line {
        Some(e) => e,
        None => original_line,
    }
}

/// The line numbers for which the window below is defined: a range is
/// counted in `usize` from its first line to its last, and that count would
/// overflow on a range that starts at line 0 or ends before it starts.
pub open spec fn window_defined(start_line: Option<i64>, original_line: i64, line: Option<i64>) -> bool {
    let s = first_line(start_line, original_line);
    let e = last_line(line, original_line);
    s != e ==> (s as usize >= 1 && e as usize >= s as usize)
}

/// How many lines of the file to skip, and how many to show after them. A
/// comment on one line shows that line and up to the four lines before it:
/// lines `max(1, line - 4)` to `line`. A comment on a range of lines shows
/// the range.
pub open spec fn line_window(start_line: Option<i64>, original_line: i64, line: Option<i64>) -> (int, int) {
    let s = first_line(start_line, original_line);
    let e = last_line(line, original_line);
    if s == e {
        let last = (e as usize) as int;
        if last > 5 {
            (last - 5, 5)
        } else {
            (0, last)
        }
    } else {
        ((s as usize) - 1, (e as usize) - (s as usize) + 1)
    }
}

/// A comment on a range of lines shows exactly that range, from its first
/// line to its last; a comment on one line shows that line and up to four
/// lines before it, ending at the line.
pub proof fn law_line_window_covers_comment(
    start_line: Option<i64>,
    original_line: i64,
    line: Option<i64>,
    lines: Seq<Seq<char>>,
)
    ensures
        ({
            let s = first_line(start_line, original_line);
            let e = last_line(line, original_line);
            let w = line_window(start_line, original_line, line);
            &&& 1 <= s < e <= usize::MAX ==> w == (s - 1, e - s + 1)
            &&& 1 <= s < e <= usize::MAX && e <= lines.len() ==> window(lines, w.0, w.1) == lines.subrange(
                s - 1,
                e as int,
            )
            &&& 1 <= e <= usize::MAX && s == e ==> w.0 + w.1 == e && w.1 == (if e < 5 {
                e as int
            } else {
                5
            })
            &&& 1 <= e <= usize::MAX && s == e && e <= lines.len() ==> window(lines, w.0, w.1)
                == lines.subrange(if e < 5 { 0 } else { e - 5 }, e as int)
        }),
{
}

/// The lines that a window selects: those after the first `skip`, at most
/// `take` of them.
pub open spec fn window<A>(s: Seq<A>, skip: int, take: int) -> Seq<A> {
    let from = if skip < s.len() { skip } else { s.len() as int };
    let to = if take <= s.len() - from { from + take } else { s.len() as int };
    s.subrange(from, to)
}

/// The characters after the last `c` of `s`, or all of `s` when it has none.
pub open spec fn after_last(s: Seq<char>, c: char) -> Seq<char>
    decreases s.len(),
{
    if s.len() == 0 {
        s
    } else if s.last() == c {
        Seq::empty()
    } else {
        after_last(s.drop_last(), c).push(s.last())
    }
}

/// A Markdown code block tagged with `ext` that holds the selected lines.
pub open spec fn code_block_text(ext: Seq<char>, content: Seq<char>, skip: int, take: int) -> Seq<char> {
    "```"@ + ext + "\n"@ + join(window(text_lines(content), skip, take), "\n"@) + "\n```"@
}

/// The `(skip, take)` window of lines that a comment refers to.
pub fn comment_line_window(start_line: Option<i64>, original_line: i64, line: Option<i64>) -> (res: (
    usize,
    usize,
))
    requires
        window_defined(start_line, original_line, line),
    ensures
        (res.0 as int, res.1 as int) == line_window(start_line, original_line, line),
        ({
            let s = first_line(start_line, original_line);
            let e = last_line(line, original_line);
            &&& 1 <= s < e <= usize::MAX ==> res.0 == s - 1 && res.1 == e - s + 1
            &&& 1 <= e <= usize::MAX && s == e ==> res.0 + res.1 == e && res.1 == (if e < 5 {
                e as int
            } else {
                5
            })
        }),
{
    let s = match start_line {
        Some(s) => s,
        None => original_line,
    };
    let e = match line {
        Some(e) => e,
        None => original_line,
    };
    if s == e {
        let last = e as usize;
        if last > 5 {
            (last - 5, 5)
        } else {
            (0, last)
        }
    } else {
        ((s as usize) - 1, (e as usize) - (s as usize) + 1)
    }
}

/// The part of a path after its last `.`.
pub fn path_suffix(path: &str) -> (res: Vec<char>)
    ensures
        res@ == after_last(path@, '.'),
{
    let cs = crate::text::chars_of(path);
    let mut seg: Vec<char> = Vec::new();
    let mut i: usize = 0;
    while i < cs.len()
        invariant
            i <= cs@.len(),
            cs@ == path@,
            seg@ == after_last(cs@.take(i as int), '.'),
        decreases cs@.len() - i,
    {
        assert(cs@.take(i + 1).drop_last() =~= cs@.take(i as int));
        if cs[i] == '.' {
            seg = Vec::new();
        } else {
            seg.push(cs[i]);
        }
        i = i + 1;
    }
    assert(cs@.take(i as int) =~= cs@);
    seg
}

/// The language tag of a file: the part of its path after the last `.`,
/// lowercased.
pub fn file_extension(path: &str) -> (res: String)
    ensures
        res@ == lowercase(after_last(path@, '.')),
{
    let seg = path_suffix(path);
    let mut s = String::new();
    push_chars(&mut s, &seg);
    assert(s@ =~= seg@);
    to_lowercase(s.as_str())
}

/// The code block for a file's `content`, tagged with `ext`, showing the
/// lines that the window selects.
pub fn render_code_block(ext: &str, content: &str, skip: usize, take: usize) -> (res: String)
    ensures
        res@ == code_block_text(ext@, content@, skip as int, take as int),
{
    let lines = lines_of(content);
    let n = lines.len();
    let from = if skip < n { skip } else { n };
    let to = if take <= n - from { from + take } else { n };
    let body = join_range(&lines, from, to, "\n");
    let mut res = String::new();
    res.append("```");
    res.append(ext);
    res.append("\n");
    res.append(body.as_str());
    res.append("\n```");
    proof {
        let ls = lines@.map_values(|l: Vec<char>| l@);
        assert(lines@.subrange(from as int, to as int).map_values(|l: Vec<char>| l@) =~= window(
            ls,
            skip as int,
            take as int,
        ));
    }
    assert(res@ =~= code_block_text(ext@, content@, skip as int, take as int));
    res
}

/// The line range of a review comment, when it is defined.
pub open spec fn comment_window_defined(comment: Comment) -> bool {
    window_defined(
        match comment.start_line {
            Some(t) => json_integer(t@),
            None => None,
        },
        comment.original_line,
        comment.line,
    )
}

/// The window of a review comment's lines.
pub open spec fn comment_window(comment: Comment) -> (int, int) {
    line_window(
        match comment.start_line {
            Some(t) => json_integer(t@),
            None => None,
        },
        comment.original_line,
        comment.line,
    )
}

/// The code block that shows the lines a review comment refers to, given
/// the content of the commented file.
pub fn code_block(data: &PullRequestReviewComment, content: &str) -> (res: String)
    requires
        comment_window_defined(data.comment),
    ensures
        res@ == code_block_text(
            lowercase(after_last(data.comment.path@, '.')),
            content@,
            comment_window(data.comment).0,
            comment_window(data.comment).1,
        ),
{
    let start_line = json_field_integer(&data.comment.start_line);
    let (skip, take) = comment_line_window(start_line, data.comment.original_line, data.comment.line);
    let ext = file_extension(data.comment.path.as_str());
    render_code_block(ext.as_str(), content, skip, take)
}

/// `code_block`, or `None` on a comment whose range of lines cannot be
/// counted in `usize` (it starts at line 0 or ends before it starts).
pub fn code_block_checked(data: &PullRequestReviewComment, content: &str) -> (res: Option<String>)
    ensures
        res is Some <==> comment_window_defined(data.comment),
        res matches Some(s) ==> s@ == code_block_text(
            lowercase(after_last(data.comment.path@, '.')),
            content@,
            comment_window(data.comment).0,
            comment_window(data.comment).1,
        ),
{
    let start_line = json_field_integer(&data.comment.start_line);
    let s = match start_line {
        Some(s) => s,
        None => data.comment.original_line,
    };
    let e = match data.comment.line {
        Some(e) => e,
        None => data.comment.original_line,
    };
    if s == e || ((s as usize) >= 1 && (e as usize) >= (s as usize)) {
        Some(code_block(data, content))
    } else {
        None
    }
}


/// How the author of a comment is mentioned: by their Discord account when
/// it is linked, else as `Unknown`.
pub open spec fn author_mention(discord_id: Option<String>) -> Seq<char> {
    match discord_id {
        Some(id) => "<@"@ + id@ + ">"@,
        None => "Unknown"@,
    }
}

/// The file a comment is on, on GitHub, at the head branch of the pull request.
pub open spec fn comment_file_url(data: PullRequestReviewComment) -> Seq<char> {
    "https://github.com/"@ + data.repository.owner.login@ + "/"@ + data.repository.name@ + "/blob/"@
        + data.pull_request.head.base_ref@ + "/"@ + data.comment.path@
}

/// The range of lines, when the comment gives both ends of it.
pub open spec fn line_range_note(start_line: Option<i64>, line: Option<i64>) -> Seq<char> {
    match (start_line, line) {
        (Some(s), Some(e)) => " `(L"@ + signed_decimal(s as int) + "-"@ + signed_decimal(e as int)
            + ")`"@,
        _ => Seq::empty(),
    }
}

/// The message that reports a review comment in its thread.
pub open spec fn review_message(
    data: PullRequestReviewComment,
    discord_id: Option<String>,
    code_block: Seq<char>,
) -> Seq<char> {
    let header = "### [New Comment](<"@ + author_mention(discord_id) + ">) from "@
        + data.comment.links.html.href@;
    let start = match data.comment.start_line {
        Some(t) => json_integer(t@),
        None => None,
    };
    let subheader = "[`"@ + data.comment.path@ + "`]("@ + comment_file_url(data) + ")"@
        + line_range_note(start, data.comment.line);
    header + "\n"@ + data.comment.body@ + "\n\n"@ + subheader + "\n"@ + code_block
}

fn author_mention_text(discord_id: &Option<String>) -> (res: String)
    ensures
        res@ == author_mention(*discord_id),
{
    let mut res = String::new();
    match discord_id {
        Some(id) => {
            res.append("<@");
            res.append(id.as_str());
            res.append(">");
        },
        None => {
            res.append("Unknown");
        },
    }
    assert(res@ =~= author_mention(*discord_id));
    res
}

fn file_url_text(owner: &str, name: &str, branch: &str, path: &str) -> (res: String)
    ensures
        res@ == "https://github.com/"@ + owner@ + "/"@ + name@ + "/blob/"@ + branch@ + "/"@ + path@,
{
    let mut res = String::new();
    res.append("https://github.com/");
    res.append(owner);
    res.append("/");
    res.append(name);
    res.append("/blob/");
    res.append(branch);
    res.append("/");
    res.append(path);
    assert(res@ =~= "https://github.com/"@ + owner@ + "/"@ + name@ + "/blob/"@ + branch@ + "/"@
        + path@);
    res
}

fn line_range_text(start_line: Option<i64>, line: Option<i64>) -> (res: String)
    ensures
        res@ == line_range_note(start_line, line),
{
    let mut res = String::new();
    match (start_line, line) {
        (Some(s), Some(e)) => {
            res.append(" `(L");
            push_signed_decimal(&mut res, s);
            res.append("-");
            push_signed_decimal(&mut res, e);
            res.append(")`");
        },
        _ => {},
    }
    assert(res@ =~= line_range_note(start_line, line));
    res
}

/// Writes the message that reports a review comment: who made it (the
/// Discord id linked to the commenter's GitHub account, if any), the
/// comment, the file and lines it is on, and the code block of those lines.
pub fn review_comment_message(
    data: &PullRequestReviewComment,
    discord_id: &Option<String>,
    code_block: &str,
) -> (res: String)
    ensures
        res@ == review_message(*data, *discord_id, code_block@),
{
    let mention = author_mention_text(discord_id);
    let url = file_url_text(
        data.repository.owner.login.as_str(),
        data.repository.name.as_str(),
        data.pull_request.head.base_ref.as_str(),
        data.comment.path.as_str(),
    );
    let start = json_field_integer(&data.comment.start_line);
    let range = line_range_text(start, data.comment.line);
    let ghost header = "### [New Comment](<"@ + mention@ + ">) from "@ + data.comment.links.html.href@;
    let ghost subheader = "[`"@ + data.comment.path@ + "`]("@ + url@ + ")"@ + range@;
    let mut res = String::new();
    res.append("### [New Comment](<");
    res.append(mention.as_str());
    res.append(">) from ");
    res.append(data.comment.links.html.href.as_str());
    assert(res@ =~= header);
    res.append("\n");
    res.append(data.comment.body.as_str());
    res.append("\n\n");
    let ghost mid = res@;
    res.append("[`");
    res.append(data.comment.path.as_str());
    res.append("`](");
    res.append(url.as_str());
    res.append(")");
    res.append(range.as_str());
    assert(res@ =~= mid + subheader);
    res.append("\n");
    res.append(code_block);
    assert(res@ =~= header + "\n"@ + data.comment.body@ + "\n\n"@ + subheader + "\n"@
        + code_block@);
    res
}

/// The key under which the thread for a pull request's comments is stored:
/// its number (as the database's 32-bit integer), the repository's owner and
/// its name.
pub fn review_output_key(data: &PullRequestReviewComment) -> (res: (i32, String, String))
    ensures
        res.0 == data.pull_request.number as i32,
        res.1@ == data.repository.owner.login@,
        res.2@ == data.repository.name@,
{
    (
        data.pull_request.number as i32,
        data.repository.owner.login.clone(),
        data.repository.name.clone(),
    )
}

/// The GitHub id of a comment's author, as the database's 32-bit integer.
pub fn comment_author_id(data: &PullRequestReviewComment) -> (res: i32)
    ensures
        res == data.comment.user.id as i32,
{
    data.comment.user.id as i32
}

} // verus!
