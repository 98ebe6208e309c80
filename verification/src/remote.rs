//! One whitelist command on one remote server: the text that is sent, and
//! what the server's answer means.

use crate::error::{Error, WhitelistErrorKind};
use crate::model::ServerTarget;
use crate::text::{decimal, decimal_text, same_text};
use vstd::prelude::*;
use vstd::string::StringExecFns;

verus! {

/// What a whitelist command asks the server to do with a player.
#[derive(Debug, Clone, Copy, PartialEq, Eq, Structural)]
pub enum WhitelistAction {
    /// Put the player on the whitelist.
    Add,
    /// Take the player off the whitelist.
    Remove,
}

/// How one whitelist command on one server ended.
#[derive(Debug, PartialEq, Eq)]
pub enum CommandOutcome {
    /// The server took the command; its reply is kept as it came.
    Success(String),
    /// The server answered that it knows no player of that name.
    PlayerUnknown,
    /// No authenticated session could be had, or it broke; the cause.
    Unreachable(String),
}

/// What a [`CommandOutcome`] holds.
pub ghost enum CommandOutcomeView {
    Success(Seq<char>),
    PlayerUnknown,
    Unreachable(Seq<char>),
}

impl View for CommandOutcome {
    type V = CommandOutcomeView;

    open spec fn view(&self) -> CommandOutcomeView {
        match *self {
            CommandOutcome::Success(reply) => CommandOutcomeView::Success(reply@),
            CommandOutcome::PlayerUnknown => CommandOutcomeView::PlayerUnknown,
            CommandOutcome::Unreachable(cause) => CommandOutcomeView::Unreachable(cause@),
        }
    }
}

/// The reply by which a server says that it knows no player of the name
/// given. The comparison is exact and case-sensitive.
pub open spec fn player_unknown_reply() -> Seq<char> {
    "That player does not exist"@
}

/// The command that asks a server for `action` on the player `display_name`.
pub open spec fn command_text_of(action: WhitelistAction, display_name: Seq<char>) -> Seq<char> {
    match action {
        WhitelistAction::Add => "whitelist add "@ + display_name,
        WhitelistAction::Remove => "whitelist remove "@ + display_name,
    }
}

/// The command that asks a server for `action` on the player `display_name`.
pub fn command_text(action: WhitelistAction, display_name: &str) -> (r: String)
    ensures
        r@ == command_text_of(action, display_name@),
{
    let head: &str = match action {
        WhitelistAction::Add => "whitelist add ",
        WhitelistAction::Remove => "whitelist remove ",
    };
    String::from_str(head).concat(display_name)
}

/// What a server's reply means: the one fixed reply means that the player
/// is unknown there, every other reply is a success.
pub open spec fn reply_meaning(reply: Seq<char>) -> CommandOutcomeView {
    if reply == player_unknown_reply() {
        CommandOutcomeView::PlayerUnknown
    } else {
        CommandOutcomeView::Success(reply)
    }
}

/// Reads the reply that a server gave to a whitelist command.
pub fn classify_reply(reply: String) -> (r: CommandOutcome)
    ensures
        r@ == reply_meaning(reply@),
{
    if same_text(reply.as_str(), "That player does not exist") {
        CommandOutcome::PlayerUnknown
    } else {
        CommandOutcome::Success(reply)
    }
}

/// What one session with a server means: a reply is read as
/// [`reply_meaning`] says, a failure to connect, to authenticate or to
/// exchange the command makes the server unreachable.
pub open spec fn session_meaning(session: Result<Seq<char>, Seq<char>>) -> CommandOutcomeView {
    match session {
        Ok(reply) => reply_meaning(reply),
        Err(cause) => CommandOutcomeView::Unreachable(cause),
    }
}

/// Reads how one session with a server ended: `Ok` with the reply, or
/// `Err` with the cause for which no reply was had.
pub fn classify_session(session: Result<String, String>) -> (r: CommandOutcome)
    ensures
        r@ == session_meaning(
            match session {
                Ok(reply) => Ok(reply@),
                Err(cause) => Err(cause@),
            },
        ),
{
    match session {
        Ok(reply) => classify_reply(reply),
        Err(cause) => CommandOutcome::Unreachable(cause),
    }
}

/// The address of the command service of `host` at `port`: the host, a
/// colon, and the port in decimal.
pub open spec fn endpoint_address_of(host: Seq<char>, port: u16) -> Seq<char> {
    host + ":"@ + decimal_text(port as nat)
}

/// The address of the command service of `host` at `port`.
pub fn endpoint_address(host: &str, port: u16) -> (r: String)
    ensures
        r@ == endpoint_address_of(host@, port),
{
    let number: String = decimal(port);
    String::from_str(host).concat(":").concat(number.as_str())
}

impl ServerTarget {
    /// The server whose command service listens on `host` at `port` and
    /// opens to `shared_secret`.
    pub fn new(host: &str, port: u16, shared_secret: String) -> (r: ServerTarget)
        ensures
            r@.address == endpoint_address_of(host@, port),
            r@.shared_secret == shared_secret@,
    {
        ServerTarget { address: endpoint_address(host, port), shared_secret }
    }
}

impl CommandOutcome {
    /// The outcome as a `Result`: the reply of a success, or the error that
    /// names what went wrong.
    pub fn into_result(self) -> (r: Result<String, Error>)
        ensures
            match self@ {
                CommandOutcomeView::Success(reply) => r matches Ok(text) && text@ == reply,
                CommandOutcomeView::PlayerUnknown => r matches Err(e) && e.kind_spec()
                    == WhitelistErrorKind::NonExistingPlayer && e.text() == player_unknown_reply(),
                CommandOutcomeView::Unreachable(cause) => r matches Err(e) && e.kind_spec()
                    == WhitelistErrorKind::RCONConnectionError && e.text() == cause,
            },
    {
        match self {
            CommandOutcome::Success(reply) => Ok(reply),
            CommandOutcome::PlayerUnknown => {
                let detail: String = String::from_str("That player does not exist");
                Err(Error::WhitelistError(WhitelistErrorKind::NonExistingPlayer, Box::new(detail)))
            },
            CommandOutcome::Unreachable(cause) => Err(
                Error::WhitelistError(WhitelistErrorKind::RCONConnectionError, Box::new(cause)),
            ),
        }
    }
}

} // verus!
