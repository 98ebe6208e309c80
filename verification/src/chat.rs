//! The chat side of the workflows: which events on the chat platform set
//! off a link or an unlink, and what the user is told at the end.

use crate::link::{LinkOutcome, LinkOutcomeView};
use crate::unlink::UnlinkOutcome;
use vstd::prelude::*;
use vstd::string::StringExecFns;

verus! {

/// The one community and the one channel in which the workflows listen.
#[derive(Debug, Clone, Copy, PartialEq, Eq, Structural)]
pub struct ChatScope {
    /// The community whose departures unlink.
    pub guild_id: u64,
    /// The channel in which the two commands are taken.
    pub channel_id: u64,
}

/// Something that happened on the chat platform.
#[derive(Debug, PartialEq, Eq)]
pub enum ChatEvent {
    /// The link command, sent by `author` in `channel_id`, with its first
    /// argument if it has one.
    LinkCommand { channel_id: u64, author: u64, argument: Option<String> },
    /// The unlink command, sent by `author` in `channel_id`.
    UnlinkCommand { channel_id: u64, author: u64 },
    /// `user` left the community `guild_id`, or was removed from it.
    MemberRemoved { guild_id: u64, user: u64 },
}

/// What a [`ChatEvent`] holds.
pub ghost enum ChatEventView {
    LinkCommand { channel_id: u64, author: u64, argument: Option<Seq<char>> },
    UnlinkCommand { channel_id: u64, author: u64 },
    MemberRemoved { guild_id: u64, user: u64 },
}

impl View for ChatEvent {
    type V = ChatEventView;

    open spec fn view(&self) -> ChatEventView {
        match *self {
            ChatEvent::LinkCommand { channel_id, author, argument } => ChatEventView::LinkCommand {
                channel_id,
                author,
                argument: match argument {
                    Some(name) => Some(name@),
                    None => None,
                },
            },
            ChatEvent::UnlinkCommand { channel_id, author } => ChatEventView::UnlinkCommand {
                channel_id,
                author,
            },
            ChatEvent::MemberRemoved { guild_id, user } => ChatEventView::MemberRemoved {
                guild_id,
                user,
            },
        }
    }
}

/// What a chat event calls for.
#[derive(Debug, PartialEq, Eq)]
pub enum Dispatch {
    /// Nothing: the event is none of ours.
    Ignore,
    /// Tell the author how the link command is used.
    Usage,
    /// Link `chat_id` to the player called `requested_name`, and answer.
    Link { chat_id: u64, requested_name: String },
    /// Unlink `chat_id`; answer the author only where `reply` is set.
    Unlink { chat_id: u64, reply: bool },
}

/// What a [`Dispatch`] holds.
pub ghost enum DispatchView {
    Ignore,
    Usage,
    Link { chat_id: u64, requested_name: Seq<char> },
    Unlink { chat_id: u64, reply: bool },
}

impl View for Dispatch {
    type V = DispatchView;

    open spec fn view(&self) -> DispatchView {
        match *self {
            Dispatch::Ignore => DispatchView::Ignore,
            Dispatch::Usage => DispatchView::Usage,
            Dispatch::Link { chat_id, requested_name } => DispatchView::Link {
                chat_id,
                requested_name: requested_name@,
            },
            Dispatch::Unlink { chat_id, reply } => DispatchView::Unlink { chat_id, reply },
        }
    }
}

/// What `event` calls for within `scope`. The two commands count in the
/// one channel only; a link command without an argument is answered with
/// the usage. A departure counts in the one community only, and unlinks
/// without an answer.
pub open spec fn dispatch_of(scope: ChatScope, event: ChatEventView) -> DispatchView {
    match event {
        ChatEventView::LinkCommand { channel_id, author, argument } => if channel_id
            != scope.channel_id {
            DispatchView::Ignore
        } else {
            match argument {
                None => DispatchView::Usage,
                Some(requested_name) => DispatchView::Link { chat_id: author, requested_name },
            }
        },
        ChatEventView::UnlinkCommand { channel_id, author } => if channel_id != scope.channel_id {
            DispatchView::Ignore
        } else {
            DispatchView::Unlink { chat_id: author, reply: true }
        },
        ChatEventView::MemberRemoved { guild_id, user } => if guild_id != scope.guild_id {
            DispatchView::Ignore
        } else {
            DispatchView::Unlink { chat_id: user, reply: false }
        },
    }
}

/// Decides what a chat event calls for.
pub fn dispatch(scope: &ChatScope, event: ChatEvent) -> (r: Dispatch)
    ensures
        r@ == dispatch_of(*scope, event@),
{
    match event {
        ChatEvent::LinkCommand { channel_id, author, argument } => {
            if channel_id != scope.channel_id {
                Dispatch::Ignore
            } else {
                match argument {
                    None => Dispatch::Usage,
                    Some(requested_name) => Dispatch::Link { chat_id: author, requested_name },
                }
            }
        },
        ChatEvent::UnlinkCommand { channel_id, author } => {
            if channel_id != scope.channel_id {
                Dispatch::Ignore
            } else {
                Dispatch::Unlink { chat_id: author, reply: true }
            }
        },
        ChatEvent::MemberRemoved { guild_id, user } => {
            if guild_id != scope.guild_id {
                Dispatch::Ignore
            } else {
                Dispatch::Unlink { chat_id: user, reply: false }
            }
        },
    }
}

/// How the link command is used.
pub open spec fn usage_text() -> Seq<char> {
    "Please send me your Minecraft: Java Edition username.\nExample: `!mclink TheDunkel`"@
}

/// What the author of a link command is told. Each outcome has one text;
/// that of a link that is done goes to the author in private and names the
/// linked player.
pub open spec fn link_reply_text(outcome: LinkOutcomeView) -> Seq<char> {
    match outcome {
        LinkOutcomeView::Done(identity) => "Your Minecraft account `"@ + identity.display_name
            + "` has been successfully linked.\n  Please check #minecraft channel pins for server details and FAQ.\n  **If you leave Mooncord for any reason, you will be removed from the whitelist**"@,
        LinkOutcomeView::NameNotFound =>
            "Username not found. Windows 10, Mobile, and Console Editions cannot join."@,
        LinkOutcomeView::AlreadyLinkedChatId =>
            "You have already linked your account.\nYou may only have one linked account at a time.\nTo unlink, please type `!unlink`"@,
        LinkOutcomeView::AlreadyLinkedGameIdentity =>
            "Somebody has linked this Minecraft account already.\nPlease contact Dunkel#0001 for assistance."@,
        LinkOutcomeView::FleetFailed =>
            "Unable to contact one or more game servers. Please try again later."@,
        LinkOutcomeView::SystemIssue =>
            "There was a system issue linking your profile. Please try again later."@,
    }
}

/// What the author of an unlink command is told: one text for an unlink
/// that is done, one for every other end.
pub open spec fn unlink_reply_text(outcome: UnlinkOutcome) -> Seq<char> {
    match outcome {
        UnlinkOutcome::Done => "Your Minecraft account has been unlinked successfully."@,
        _ => "You were never whitelisted or there was an error trying to unwhitelist you."@,
    }
}

/// The text that explains the link command.
pub fn usage_reply() -> (r: &'static str)
    ensures
        r@ == usage_text(),
{
    "Please send me your Minecraft: Java Edition username.\nExample: `!mclink TheDunkel`"
}

/// The text that tells the author how the link ended.
pub fn link_reply(outcome: &LinkOutcome) -> (r: String)
    ensures
        r@ == link_reply_text(outcome@),
{
    match outcome {
        LinkOutcome::Done(identity) => String::from_str("Your Minecraft account `").concat(
            identity.display_name.as_str(),
        ).concat(
            "` has been successfully linked.\n  Please check #minecraft channel pins for server details and FAQ.\n  **If you leave Mooncord for any reason, you will be removed from the whitelist**",
        ),
        LinkOutcome::NameNotFound => String::from_str(
            "Username not found. Windows 10, Mobile, and Console Editions cannot join.",
        ),
        LinkOutcome::AlreadyLinkedChatId => String::from_str(
            "You have already linked your account.\nYou may only have one linked account at a time.\nTo unlink, please type `!unlink`",
        ),
        LinkOutcome::AlreadyLinkedGameIdentity => String::from_str(
            "Somebody has linked this Minecraft account already.\nPlease contact Dunkel#0001 for assistance.",
        ),
        LinkOutcome::FleetFailed => String::from_str(
            "Unable to contact one or more game servers. Please try again later.",
        ),
        LinkOutcome::SystemIssue => String::from_str(
            "There was a system issue linking your profile. Please try again later.",
        ),
    }
}

/// The text that tells the author how the unlink ended.
pub fn unlink_reply(outcome: UnlinkOutcome) -> (r: &'static str)
    ensures
        r@ == unlink_reply_text(outcome),
{
    match outcome {
        UnlinkOutcome::Done => "Your Minecraft account has been unlinked successfully.",
        _ => "You were never whitelisted or there was an error trying to unwhitelist you.",
    }
}

} // verus!
