//! Where the events that Discord sends go.
use vstd::prelude::*;
use crate::text::{decimal, push_decimal, str_eq};

verus! {

/// The kinds of interaction.
#[derive(Debug, Clone, Copy, PartialEq, Eq)]
pub enum InteractionKind {
    Ping,
    ApplicationCommand,
    ApplicationCommandAutocomplete,
    MessageComponent,
    ModalSubmit,
    Other,
}

/// Who handles an interaction.
#[derive(Debug, Clone, Copy, PartialEq, Eq)]
pub enum InteractionRoute {
    /// Nobody: it came from a direct message, or carries no command.
    Ignore,
    /// The command framework.
    Framework,
    /// The handler of message components.
    MessageComponent,
}

/// The interactions that the bot handles at all; it stops on the others.
pub open spec fn handled_kind(in_guild: bool, kind: InteractionKind) -> bool {
    in_guild ==> (kind == InteractionKind::ApplicationCommand || kind == InteractionKind::ModalSubmit
        || kind == InteractionKind::MessageComponent)
}

/// Routes an interaction: those outside guilds are ignored; application
/// commands that carry command data and modal submissions go to the
/// framework; message components to their handler.
pub fn route_interaction(in_guild: bool, kind: InteractionKind, has_command_data: bool) -> (res:
    InteractionRoute)
    requires
        handled_kind(in_guild, kind),
    ensures
        res == (if !in_guild {
            InteractionRoute::Ignore
        } else if kind == InteractionKind::ApplicationCommand {
            if has_command_data {
                InteractionRoute::Framework
            } else {
                InteractionRoute::Ignore
            }
        } else if kind == InteractionKind::ModalSubmit {
            InteractionRoute::Framework
        } else {
            InteractionRoute::MessageComponent
        }),
{
    if !in_guild {
        return InteractionRoute::Ignore;
    }
    match kind {
        InteractionKind::ApplicationCommand => if has_command_data {
            InteractionRoute::Framework
        } else {
            InteractionRoute::Ignore
        },
        InteractionKind::ModalSubmit => InteractionRoute::Framework,
        _ => InteractionRoute::MessageComponent,
    }
}

/// What a stored custom id stands for.
#[derive(Debug, Clone, Copy, PartialEq, Eq)]
pub enum ComponentKind {
    PollOption,
    PollClear,
    Unknown,
}

/// Reads the kind of a stored custom id.
pub fn component_kind(kind: &str) -> (res: ComponentKind)
    ensures
        res == (if kind@ == "poll_option"@ {
            ComponentKind::PollOption
        } else if kind@ == "poll_clear"@ {
            ComponentKind::PollClear
        } else {
            ComponentKind::Unknown
        }),
{
    if str_eq(kind, "poll_option") {
        ComponentKind::PollOption
    } else if str_eq(kind, "poll_clear") {
        ComponentKind::PollClear
    } else {
        ComponentKind::Unknown
    }
}

/// Whether a stored modal belongs to `Circle Back`.
pub fn is_circle_back_modal(command: &str) -> (res: bool)
    ensures
        res == (command@ == "circle_back"@),
{
    str_eq(command, "circle_back")
}

/// Whether a context menu command is `Circle back`.
pub fn is_circle_back_command(name: &str) -> (res: bool)
    ensures
        res == (name@ == "Circle back"@),
{
    str_eq(name, "Circle back")
}

/// Whether a webhook event is a review comment on a pull request.
pub fn is_review_comment_event(event_type: &str) -> (res: bool)
    ensures
        res == (event_type@ == "pull_request_review_comment"@),
{
    str_eq(event_type, "pull_request_review_comment")
}

/// Whether a created channel is a thread to look at: it has a parent and a
/// guild (without them it is no thread), and it was just created.
pub fn is_new_thread(parent_id: Option<u64>, guild_id: Option<u64>, newly_created: Option<bool>) -> (res:
    bool)
    ensures
        res == (parent_id is Some && guild_id is Some && newly_created == Some(true)),
{
    if parent_id.is_none() || guild_id.is_none() {
        return false;
    }
    match newly_created {
        Some(b) => b,
        None => false,
    }
}

/// The note in the forum log: who created which thread in which forum.
pub open spec fn forum_log_text(owner_id: u64, thread_id: u64, parent_id: u64) -> Seq<char> {
    "<@"@ + decimal(owner_id as nat) + "> created <#"@ + decimal(thread_id as nat) + "> in <#"@
        + decimal(parent_id as nat) + ">"@
}

/// Writes the note in the forum log.
pub fn forum_log_message(owner_id: u64, thread_id: u64, parent_id: u64) -> (res: String)
    ensures
        res@ == forum_log_text(owner_id, thread_id, parent_id),
{
    let mut res = String::new();
    res.append("<@");
    push_decimal(&mut res, owner_id);
    res.append("> created <#");
    push_decimal(&mut res, thread_id);
    res.append("> in <#");
    push_decimal(&mut res, parent_id);
    res.append(">");
    assert(res@ =~= forum_log_text(owner_id, thread_id, parent_id));
    res
}

/// The user behind an interaction: in a guild, the member's user; elsewhere,
/// the user.
pub fn user_from_interaction<U>(in_guild: bool, member_user: Option<U>, user: Option<U>) -> (res: U)
    requires
        in_guild ==> member_user is Some,
        !in_guild ==> user is Some,
    ensures
        res == (if in_guild {
            member_user->0
        } else {
            user->0
        }),
{
    if in_guild {
        member_user.unwrap()
    } else {
        user.unwrap()
    }
}

} // verus!
