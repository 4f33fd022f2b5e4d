//! The replies of the commands that show and change a guild's settings.
use vstd::prelude::*;
use crate::text::{decimal, push_decimal};

verus! {

/// A reply to a command: its text, and whether only the caller sees it.
pub struct Reply {
    pub content: String,
    pub ephemeral: bool,
}

fn reply(content: &str, ephemeral: bool) -> (res: Reply)
    ensures
        res.content@ == content@,
        res.ephemeral == ephemeral,
{
    Reply { content: String::from_str(content), ephemeral }
}


/// The reply that shows the Breakout Rooms category, stored as `value`; only the caller sees it.
pub fn breakout_category_list(value: &Option<String>) -> (res: Reply)
    ensures
        res.ephemeral,
        res.content@ == (match value {
            None => "There is no current Breakout Rooms category."@,
            Some(v) => "The current default current Breakout Rooms category is <#"@ + v@ + ">."@,
        }),
{
    match value {
        None => reply("There is no current Breakout Rooms category.", true),
        Some(v) => {
            let mut content = String::new();
            content.append("The current default current Breakout Rooms category is <#");
            content.append(v.as_str());
            content.append(">.");
            assert(content@ =~= "The current default current Breakout Rooms category is <#"@ + v@ + ">."@);
            Reply { content, ephemeral: true }
        },
    }
}

/// The reply that shows the default GitHub organization, stored as `value`; only the caller sees it.
pub fn default_org_list(value: &Option<String>) -> (res: Reply)
    ensures
        res.ephemeral,
        res.content@ == (match value {
            None => "There is no default GitHub organization."@,
            Some(v) => "The current default GitHub organization is `"@ + v@ + "`"@,
        }),
{
    match value {
        None => reply("There is no default GitHub organization.", true),
        Some(v) => {
            let mut content = String::new();
            content.append("The current default GitHub organization is `");
            content.append(v.as_str());
            content.append("`");
            assert(content@ =~= "The current default GitHub organization is `"@ + v@ + "`"@);
            Reply { content, ephemeral: true }
        },
    }
}

/// The reply that shows the forum log channel, stored as `value`; only the caller sees it.
pub fn forum_log_list(value: &Option<String>) -> (res: Reply)
    ensures
        res.ephemeral,
        res.content@ == (match value {
            None => "No forum log channel set."@,
            Some(v) => "The current forum log channel is <#"@ + v@ + ">"@,
        }),
{
    match value {
        None => reply("No forum log channel set.", true),
        Some(v) => {
            let mut content = String::new();
            content.append("The current forum log channel is <#");
            content.append(v.as_str());
            content.append(">");
            assert(content@ =~= "The current forum log channel is <#"@ + v@ + ">"@);
            Reply { content, ephemeral: true }
        },
    }
}

/// The reply to setting the Breakout Rooms category: seen by all when the update `ok`, only by
/// the caller when it failed.
pub fn breakout_category_set(ok: bool, channel: u64) -> (res: Reply)
    ensures
        res.ephemeral == !ok,
        res.content@ == (if ok {
            "Successfully set the current Breakout Rooms category to <#"@ + decimal(channel as nat) + ">."@
        } else {
            "Failed to set the current Breakout Rooms category."@
        }),
{
    if ok {
        let mut content = String::new();
        content.append("Successfully set the current Breakout Rooms category to <#");
        push_decimal(&mut content, channel);
        content.append(">.");
        assert(content@ =~= "Successfully set the current Breakout Rooms category to <#"@ + decimal(channel as nat) + ">."@);
        Reply { content, ephemeral: false }
    } else {
        reply("Failed to set the current Breakout Rooms category.", true)
    }
}

/// The reply to setting the forum log channel: seen by all when the update `ok`, only by
/// the caller when it failed.
pub fn forum_log_set(ok: bool, channel: u64) -> (res: Reply)
    ensures
        res.ephemeral == !ok,
        res.content@ == (if ok {
            "Successfully set the forum log channel to <#"@ + decimal(channel as nat) + ">"@
        } else {
            "Failed to set the forum log channel."@
        }),
{
    if ok {
        let mut content = String::new();
        content.append("Successfully set the forum log channel to <#");
        push_decimal(&mut content, channel);
        content.append(">");
        assert(content@ =~= "Successfully set the forum log channel to <#"@ + decimal(channel as nat) + ">"@);
        Reply { content, ephemeral: false }
    } else {
        reply("Failed to set the forum log channel.", true)
    }
}

/// The reply to setting the default GitHub organization: seen by all when the update `ok`, only by
/// the caller when it failed.
pub fn default_org_set(ok: bool, organization: &str) -> (res: Reply)
    ensures
        res.ephemeral == !ok,
        res.content@ == (if ok {
            "Successfully set the default GitHub organization to `"@ + organization@ + "`."@
        } else {
            "Failed to set the default GitHub organization."@
        }),
{
    if ok {
        let mut content = String::new();
        content.append("Successfully set the default GitHub organization to `");
        content.append(organization);
        content.append("`.");
        assert(content@ =~= "Successfully set the default GitHub organization to `"@ + organization@ + "`."@);
        Reply { content, ephemeral: false }
    } else {
        reply("Failed to set the default GitHub organization.", true)
    }
}

/// The reply to unsetting the Breakout Rooms category: seen by all when the update `ok`, only by
/// the caller when it failed.
pub fn breakout_category_unset(ok: bool) -> (res: Reply)
    ensures
        res.ephemeral == !ok,
        res.content@ == (if ok {
            "Successfully unset the current Breakout Rooms category."@
        } else {
            "Failed to unset the current Breakout Rooms category."@
        }),
{
    if ok {
        reply("Successfully unset the current Breakout Rooms category.", false)
    } else {
        reply("Failed to unset the current Breakout Rooms category.", true)
    }
}

/// The reply to unsetting the default GitHub organization: seen by all when the update `ok`, only by
/// the caller when it failed.
pub fn default_org_unset(ok: bool) -> (res: Reply)
    ensures
        res.ephemeral == !ok,
        res.content@ == (if ok {
            "Successfully unset the default GitHub organization."@
        } else {
            "Failed to unset the default GitHub organization."@
        }),
{
    if ok {
        reply("Successfully unset the default GitHub organization.", false)
    } else {
        reply("Failed to unset the default GitHub organization.", true)
    }
}

/// The reply to unsetting the forum log channel: seen by all when the update `ok`, only by
/// the caller when it failed.
pub fn forum_log_unset(ok: bool) -> (res: Reply)
    ensures
        res.ephemeral == !ok,
        res.content@ == (if ok {
            "Successfully unset the forum log channel."@
        } else {
            "Failed to unset the forum log channel."@
        }),
{
    if ok {
        reply("Successfully unset the forum log channel.", false)
    } else {
        reply("Failed to unset the forum log channel.", true)
    }
}

/// A stored setting, or `None` when it is not set.
pub open spec fn or_none(value: Option<String>) -> Seq<char> {
    match value {
        Some(v) => v@,
        None => "None"@,
    }
}

fn push_or_none(s: &mut String, value: &Option<String>)
    ensures
        final(s)@ == old(s)@ + or_none(*value),
{
    match value {
        Some(v) => s.append(v.as_str()),
        None => s.append("None"),
    }
}

/// The reply that lists a guild's configuration; seen by all.
pub fn config_list(
    guild_name: &str,
    forum_log_channel_id: &Option<String>,
    default_repository_owner: &Option<String>,
    default_repository: &Option<String>,
) -> (res: Reply)
    ensures
        !res.ephemeral,
        res.content@ == "\n**Configuration for "@ + guild_name@ + "**\n\nForum log channel: <#"@
            + or_none(*forum_log_channel_id) + ">\nDefault organization: `"@ + or_none(
            *default_repository_owner,
        ) + "`\nDefault repository: `"@ + or_none(*default_repository) + "`\n"@,
{
    let mut content = String::new();
    content.append("\n**Configuration for ");
    content.append(guild_name);
    content.append("**\n\nForum log channel: <#");
    push_or_none(&mut content, forum_log_channel_id);
    content.append(">\nDefault organization: `");
    push_or_none(&mut content, default_repository_owner);
    content.append("`\nDefault repository: `");
    push_or_none(&mut content, default_repository);
    content.append("`\n");
    assert(content@ =~= "\n**Configuration for "@ + guild_name@ + "**\n\nForum log channel: <#"@
        + or_none(*forum_log_channel_id) + ">\nDefault organization: `"@ + or_none(
        *default_repository_owner,
    ) + "`\nDefault repository: `"@ + or_none(*default_repository) + "`\n"@);
    Reply { content, ephemeral: false }
}

/// The follow-up when a command failed unexpectedly; `detail` is the error,
/// as text. Only the caller sees it.
pub fn unknown_error_reply(detail: &str) -> (res: Reply)
    ensures
        res.ephemeral,
        res.content@ == "\nAn unknown error occurred:\n```rs\n"@ + detail@ + "\n```\n"@,
{
    let mut content = String::new();
    content.append("\nAn unknown error occurred:\n```rs\n");
    content.append(detail);
    content.append("\n```\n");
    assert(content@ =~= "\nAn unknown error occurred:\n```rs\n"@ + detail@ + "\n```\n"@);
    Reply { content, ephemeral: true }
}

} // verus!
