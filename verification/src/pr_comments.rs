//! Registering the thread that gets a pull request's review comments, and
//! linking a GitHub account.
use vstd::prelude::*;
use crate::settings::Reply;
use crate::text::{decimal, push_decimal, signed_decimal, push_signed_decimal};

verus! {

/// The repository a `pr-comments` command is for.
pub struct PrTarget {
    pub owner: String,
    pub repo: String,
}

/// The value given, else the stored default, else nothing.
pub open spec fn given_or_default(given: Option<String>, default: Option<String>) -> Seq<char> {
    match given {
        Some(g) => g@,
        None => match default {
            Some(d) => d@,
            None => Seq::empty(),
        },
    }
}

fn pick(given: &Option<String>, default: &Option<String>) -> (res: String)
    ensures
        res@ == given_or_default(*given, *default),
{
    match given {
        Some(g) => g.clone(),
        None => match default {
            Some(d) => d.clone(),
            None => String::new(),
        },
    }
}

/// The reply when no repository is known.
pub open spec fn missing_repository_reply() -> Seq<char> {
    "Please set a default repository and owner with `/config default-repo set` and `/config default-org`."@
}

/// Works out the repository of a `pr-comments` command: the owner and name
/// given, else the guild's defaults. Refuses, with a reply only the caller
/// sees, when either ends up empty.
pub fn pr_comments_target(
    owner: &Option<String>,
    repo: &Option<String>,
    default_owner: &Option<String>,
    default_repo: &Option<String>,
) -> (res: Result<PrTarget, Reply>)
    ensures
        ({
            let o = given_or_default(*owner, *default_owner);
            let r = given_or_default(*repo, *default_repo);
            if o.len() == 0 || r.len() == 0 {
                res matches Err(reply) && reply.ephemeral && reply.content@ == missing_repository_reply()
            } else {
                res matches Ok(t) && t.owner@ == o && t.repo@ == r
            }
        }),
{
    let o = pick(owner, default_owner);
    let r = pick(repo, default_repo);
    if o.as_str().is_empty() || r.as_str().is_empty() {
        return Err(
            Reply {
                content: String::from_str(
                    "Please set a default repository and owner with `/config default-repo set` and `/config default-org`.",
                ),
                ephemeral: true,
            },
        );
    }
    Ok(PrTarget { owner: o, repo: r })
}

/// The reply once the thread is registered: `revised` when the pull request
/// already had one. Seen by all.
pub open spec fn pr_comments_reply_text(
    revised: bool,
    owner: Seq<char>,
    repo: Seq<char>,
    pr: i32,
    thread_id: u64,
    entry_id: Seq<char>,
) -> Seq<char> {
    (if revised {
        "Revised the review output for `"@
    } else {
        "Review output for `"@
    }) + owner + "/"@ + repo + "#"@ + signed_decimal(pr as int) + "` to post in <#"@ + decimal(
        thread_id as nat,
    ) + "> (`"@ + entry_id + "`)."@
}

/// Writes the reply once the thread for a pull request's comments is
/// registered.
pub fn pr_comments_reply(
    revised: bool,
    target: &PrTarget,
    pr: i32,
    thread_id: u64,
    entry_id: &str,
) -> (res: Reply)
    ensures
        !res.ephemeral,
        res.content@ == pr_comments_reply_text(
            revised,
            target.owner@,
            target.repo@,
            pr,
            thread_id,
            entry_id@,
        ),
{
    let mut content = String::new();
    if revised {
        content.append("Revised the review output for `");
    } else {
        content.append("Review output for `");
    }
    content.append(target.owner.as_str());
    content.append("/");
    content.append(target.repo.as_str());
    content.append("#");
    push_signed_decimal(&mut content, pr as i64);
    content.append("` to post in <#");
    push_decimal(&mut content, thread_id);
    content.append("> (`");
    content.append(entry_id);
    content.append("`).");
    assert(content@ =~= pr_comments_reply_text(
        revised,
        target.owner@,
        target.repo@,
        pr,
        thread_id,
        entry_id@,
    ));
    Reply { content, ephemeral: false }
}

/// The URL of a GitHub user.
pub fn github_user_url(username: &str) -> (res: String)
    ensures
        res@ == "https://api.github.com/users/"@ + username@,
{
    let mut res = String::new();
    res.append("https://api.github.com/users/");
    res.append(username);
    assert(res@ =~= "https://api.github.com/users/"@ + username@);
    res
}

/// The reply once a GitHub account is linked; seen by all.
pub fn link_github_reply(username: &str, github_id: i32) -> (res: Reply)
    ensures
        !res.ephemeral,
        res.content@ == "Successfully registered your GitHub username as `"@ + username@ + "` (`"@
            + signed_decimal(github_id as int) + "`)."@,
{
    let mut content = String::new();
    content.append("Successfully registered your GitHub username as `");
    content.append(username);
    content.append("` (`");
    push_signed_decimal(&mut content, github_id as i64);
    content.append("`).");
    assert(content@ =~= "Successfully registered your GitHub username as `"@ + username@ + "` (`"@
        + signed_decimal(github_id as int) + "`)."@);
    Reply { content, ephemeral: false }
}

/// The reply when a GitHub account could not be found; only the caller sees
/// it. `detail` is the error, as text.
pub fn link_github_failure(username: &str, detail: &str) -> (res: Reply)
    ensures
        res.ephemeral,
        res.content@ == "\n                        Couldn't find the GitHub user `"@ + username@
            + "`.\n                        ```\n                        "@ + detail@
            + "\n                        ```\n                    "@,
{
    let mut content = String::new();
    content.append("\n                        Couldn't find the GitHub user `");
    content.append(username);
    content.append("`.\n                        ```\n                        ");
    content.append(detail);
    content.append("\n                        ```\n                    ");
    assert(content@ =~= "\n                        Couldn't find the GitHub user `"@ + username@
        + "`.\n                        ```\n                        "@ + detail@
        + "\n                        ```\n                    "@);
    Reply { content, ephemeral: true }
}

} // verus!
