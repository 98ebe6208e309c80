//! Linking a chat identity to a game identity: resolve the requested name,
//! store the account, put the player on every whitelist, and take the
//! account back when the fleet cannot be brought along.
//!
//! The workflow is a state machine. It decides what is to be done next; the
//! caller does it, and reports how it went.

use crate::fleet::{FleetOutcome, FleetOutcomeView};
use crate::model::{account_of, AccountView, GameIdentity, GameIdentityView};
use crate::resolver::{resolution_view, ResolveError};
use crate::remote::WhitelistAction;
use crate::store::{after_link, consistent, link_keeps_consistency, link_verdict, StoreError};
use crate::world::World;
use vstd::prelude::*;

verus! {

/// How a link ended.
#[derive(Debug, PartialEq, Eq)]
pub enum LinkOutcome {
    /// The account is stored and the player is on every whitelist.
    Done(GameIdentity),
    /// The identity service knows no player of the requested name.
    NameNotFound,
    /// The chat identity has an account already.
    AlreadyLinkedChatId,
    /// Another chat identity owns the game identity.
    AlreadyLinkedGameIdentity,
    /// Not every server took the player; the account was taken back.
    FleetFailed,
    /// The identity service or the storage failed; worth trying again later.
    SystemIssue,
}

/// What a [`LinkOutcome`] holds.
pub ghost enum LinkOutcomeView {
    Done(GameIdentityView),
    NameNotFound,
    AlreadyLinkedChatId,
    AlreadyLinkedGameIdentity,
    FleetFailed,
    SystemIssue,
}

impl View for LinkOutcome {
    type V = LinkOutcomeView;

    open spec fn view(&self) -> LinkOutcomeView {
        match *self {
            LinkOutcome::Done(identity) => LinkOutcomeView::Done(identity@),
            LinkOutcome::NameNotFound => LinkOutcomeView::NameNotFound,
            LinkOutcome::AlreadyLinkedChatId => LinkOutcomeView::AlreadyLinkedChatId,
            LinkOutcome::AlreadyLinkedGameIdentity => LinkOutcomeView::AlreadyLinkedGameIdentity,
            LinkOutcome::FleetFailed => LinkOutcomeView::FleetFailed,
            LinkOutcome::SystemIssue => LinkOutcomeView::SystemIssue,
        }
    }
}

/// Where a link stands.
#[derive(Debug, PartialEq, Eq)]
pub enum LinkState {
    /// The requested name is being resolved.
    Resolving { chat_id: u64 },
    /// The account is being stored.
    Storing { chat_id: u64, identity: GameIdentity },
    /// The account is stored; the fleet is being told to add the player.
    Whitelisting { chat_id: u64, identity: GameIdentity },
    /// The fleet did not follow; the account is being taken back.
    RollingBack { chat_id: u64 },
    /// The link is over.
    Finished,
}

/// What a [`LinkState`] holds.
pub ghost enum LinkStateView {
    Resolving { chat_id: u64 },
    Storing { chat_id: u64, identity: GameIdentityView },
    Whitelisting { chat_id: u64, identity: GameIdentityView },
    RollingBack { chat_id: u64 },
    Finished,
}

impl View for LinkState {
    type V = LinkStateView;

    open spec fn view(&self) -> LinkStateView {
        match *self {
            LinkState::Resolving { chat_id } => LinkStateView::Resolving { chat_id },
            LinkState::Storing { chat_id, identity } => LinkStateView::Storing {
                chat_id,
                identity: identity@,
            },
            LinkState::Whitelisting { chat_id, identity } => LinkStateView::Whitelisting {
                chat_id,
                identity: identity@,
            },
            LinkState::RollingBack { chat_id } => LinkStateView::RollingBack { chat_id },
            LinkState::Finished => LinkStateView::Finished,
        }
    }
}

/// What the caller reports back to a link.
#[derive(Debug, PartialEq, Eq)]
pub enum LinkEvent {
    /// The identity service answered the lookup by name.
    Resolved(Result<GameIdentity, ResolveError>),
    /// The storage answered the insertion of the account.
    Stored(Result<(), StoreError>),
    /// The fan-out over the fleet ended.
    FleetDone(FleetOutcome),
    /// The account was taken back; whether there was a row to remove.
    RolledBack(bool),
}

/// What a [`LinkEvent`] holds.
pub ghost enum LinkEventView {
    Resolved(Result<GameIdentityView, ResolveError>),
    Stored(Result<(), StoreError>),
    FleetDone(FleetOutcomeView),
    RolledBack(bool),
}

impl View for LinkEvent {
    type V = LinkEventView;

    open spec fn view(&self) -> LinkEventView {
        match *self {
            LinkEvent::Resolved(resolved) => LinkEventView::Resolved(resolution_view(resolved)),
            LinkEvent::Stored(stored) => LinkEventView::Stored(stored),
            LinkEvent::FleetDone(outcome) => LinkEventView::FleetDone(outcome@),
            LinkEvent::RolledBack(removed) => LinkEventView::RolledBack(removed),
        }
    }
}

/// What a link asks its caller to do next.
#[derive(Debug, PartialEq, Eq)]
pub enum LinkAction {
    /// Ask the identity service for the player of this display name.
    Resolve { display_name: String },
    /// Store the account that links the chat identity to the game identity.
    Store { chat_id: u64, identity: GameIdentity },
    /// Have every server of the fleet add the player of this display name.
    Whitelist { display_name: String },
    /// Remove the account of the chat identity from the storage.
    RollBack { chat_id: u64 },
    /// Nothing more; the link ended like this.
    Finish(LinkOutcome),
}

/// What a [`LinkAction`] holds.
pub ghost enum LinkActionView {
    Resolve { display_name: Seq<char> },
    Store { chat_id: u64, identity: GameIdentityView },
    Whitelist { display_name: Seq<char> },
    RollBack { chat_id: u64 },
    Finish(LinkOutcomeView),
}

impl View for LinkAction {
    type V = LinkActionView;

    open spec fn view(&self) -> LinkActionView {
        match *self {
            LinkAction::Resolve { display_name } => LinkActionView::Resolve {
                display_name: display_name@,
            },
            LinkAction::Store { chat_id, identity } => LinkActionView::Store {
                chat_id,
                identity: identity@,
            },
            LinkAction::Whitelist { display_name } => LinkActionView::Whitelist {
                display_name: display_name@,
            },
            LinkAction::RollBack { chat_id } => LinkActionView::RollBack { chat_id },
            LinkAction::Finish(outcome) => LinkActionView::Finish(outcome@),
        }
    }
}

/// The first step of a link of `chat_id` to the player called
/// `requested_name`: resolve that name.
pub open spec fn link_first(chat_id: u64, requested_name: Seq<char>) -> (
    LinkStateView,
    LinkActionView,
) {
    (
        LinkStateView::Resolving { chat_id },
        LinkActionView::Resolve { display_name: requested_name },
    )
}

/// The outcome with which a link stops where it stands.
pub open spec fn link_stop(outcome: LinkOutcomeView) -> (LinkStateView, LinkActionView) {
    (LinkStateView::Finished, LinkActionView::Finish(outcome))
}

/// The step that follows `state` once the caller reports `event`.
///
/// A name that resolves is stored; a stored account is followed by the
/// fan-out over the fleet; a fleet that took the player ends the link. A
/// name that does not resolve, or an account that the storage refuses, ends
/// the link with the matching outcome. Once the account is stored, anything
/// but a fleet that succeeded as a whole has the account taken back, and
/// the link then ends as `FleetFailed`. A report that does not answer what
/// was asked ends the link as a system issue, before the account is stored
/// or after the link is over.
pub open spec fn link_next(state: LinkStateView, event: LinkEventView) -> (
    LinkStateView,
    LinkActionView,
) {
    match state {
        LinkStateView::Resolving { chat_id } => match event {
            LinkEventView::Resolved(Ok(identity)) => (
                LinkStateView::Storing { chat_id, identity },
                LinkActionView::Store { chat_id, identity },
            ),
            LinkEventView::Resolved(Err(ResolveError::NotFound)) => link_stop(
                LinkOutcomeView::NameNotFound,
            ),
            _ => link_stop(LinkOutcomeView::SystemIssue),
        },
        LinkStateView::Storing { chat_id, identity } => match event {
            LinkEventView::Stored(Ok(_)) => (
                LinkStateView::Whitelisting { chat_id, identity },
                LinkActionView::Whitelist { display_name: identity.display_name },
            ),
            LinkEventView::Stored(Err(StoreError::AlreadyLinkedChatId)) => link_stop(
                LinkOutcomeView::AlreadyLinkedChatId,
            ),
            LinkEventView::Stored(Err(StoreError::AlreadyLinkedGameIdentity)) => link_stop(
                LinkOutcomeView::AlreadyLinkedGameIdentity,
            ),
            _ => link_stop(LinkOutcomeView::SystemIssue),
        },
        LinkStateView::Whitelisting { chat_id, identity } => match event {
            LinkEventView::FleetDone(FleetOutcomeView::AllSucceeded) => link_stop(
                LinkOutcomeView::Done(identity),
            ),
            _ => (LinkStateView::RollingBack { chat_id }, LinkActionView::RollBack { chat_id }),
        },
        LinkStateView::RollingBack { .. } => link_stop(LinkOutcomeView::FleetFailed),
        LinkStateView::Finished => link_stop(LinkOutcomeView::SystemIssue),
    }
}

/// Starts a link of `chat_id` to the player called `requested_name`.
pub fn link_begin(chat_id: u64, requested_name: String) -> (r: (LinkState, LinkAction))
    ensures
        (r.0@, r.1@) == link_first(chat_id, requested_name@),
{
    (LinkState::Resolving { chat_id }, LinkAction::Resolve { display_name: requested_name })
}

/// Takes the caller's report and decides what comes next.
pub fn link_advance(state: LinkState, event: LinkEvent) -> (r: (LinkState, LinkAction))
    ensures
        (r.0@, r.1@) == link_next(state@, event@),
{
    match state {
        LinkState::Resolving { chat_id } => match event {
            LinkEvent::Resolved(Ok(identity)) => {
                let kept = identity.clone();
                (LinkState::Storing { chat_id, identity: kept }, LinkAction::Store { chat_id, identity })
            },
            LinkEvent::Resolved(Err(ResolveError::NotFound)) => (
                LinkState::Finished,
                LinkAction::Finish(LinkOutcome::NameNotFound),
            ),
            _ => (LinkState::Finished, LinkAction::Finish(LinkOutcome::SystemIssue)),
        },
        LinkState::Storing { chat_id, identity } => match event {
            LinkEvent::Stored(Ok(_)) => {
                let display_name = identity.display_name.clone();
                (LinkState::Whitelisting { chat_id, identity }, LinkAction::Whitelist { display_name })
            },
            LinkEvent::Stored(Err(StoreError::AlreadyLinkedChatId)) => (
                LinkState::Finished,
                LinkAction::Finish(LinkOutcome::AlreadyLinkedChatId),
            ),
            LinkEvent::Stored(Err(StoreError::AlreadyLinkedGameIdentity)) => (
                LinkState::Finished,
                LinkAction::Finish(LinkOutcome::AlreadyLinkedGameIdentity),
            ),
            _ => (LinkState::Finished, LinkAction::Finish(LinkOutcome::SystemIssue)),
        },
        LinkState::Whitelisting { chat_id, identity } => match event {
            LinkEvent::FleetDone(FleetOutcome::AllSucceeded) => (
                LinkState::Finished,
                LinkAction::Finish(LinkOutcome::Done(identity)),
            ),
            _ => (LinkState::RollingBack { chat_id }, LinkAction::RollBack { chat_id }),
        },
        LinkState::RollingBack { .. } => (
            LinkState::Finished,
            LinkAction::Finish(LinkOutcome::FleetFailed),
        ),
        LinkState::Finished => (LinkState::Finished, LinkAction::Finish(LinkOutcome::SystemIssue)),
    }
}

/// What the caller reports after carrying out `action` on the account
/// table `table` in the world `world`, and the table as the action leaves
/// it.
pub open spec fn link_report(action: LinkActionView, table: Map<u64, AccountView>, world: World)
    -> (LinkEventView, Map<u64, AccountView>) {
    match action {
        LinkActionView::Resolve { display_name } => (
            LinkEventView::Resolved((world.resolve)(display_name)),
            table,
        ),
        LinkActionView::Store { chat_id, identity } => (
            LinkEventView::Stored(link_verdict(table, chat_id, identity)),
            after_link(table, chat_id, identity),
        ),
        LinkActionView::Whitelist { display_name } => (
            LinkEventView::FleetDone((world.fleet)(0, WhitelistAction::Add, display_name)),
            table,
        ),
        LinkActionView::RollBack { chat_id } => (
            LinkEventView::RolledBack(table.dom().contains(chat_id)),
            table.remove(chat_id),
        ),
        LinkActionView::Finish(_) => (LinkEventView::RolledBack(false), table),
    }
}

/// The end of a link that stands at `state` with `action` asked for: the
/// caller carries out each action and reports, at most `steps` times, until
/// the link finishes.
pub open spec fn link_run(
    state: LinkStateView,
    action: LinkActionView,
    table: Map<u64, AccountView>,
    world: World,
    steps: nat,
) -> (LinkOutcomeView, Map<u64, AccountView>)
    decreases steps,
{
    match action {
        LinkActionView::Finish(outcome) => (outcome, table),
        _ => if steps == 0 {
            (LinkOutcomeView::SystemIssue, table)
        } else {
            let (event, next_table) = link_report(action, table, world);
            let (next_state, next_action) = link_next(state, event);
            link_run(next_state, next_action, next_table, world, (steps - 1) as nat)
        },
    }
}

/// The outcome of a whole link of `chat_id` to the player called
/// `requested_name`, and the account table after it. No link takes more
/// than four actions.
pub open spec fn link_end(
    table: Map<u64, AccountView>,
    world: World,
    chat_id: u64,
    requested_name: Seq<char>,
) -> (LinkOutcomeView, Map<u64, AccountView>) {
    let (state, action) = link_first(chat_id, requested_name);
    link_run(state, action, table, world, 4)
}

/// What a link comes to, said directly: the requested name must resolve,
/// the storage must accept the account, and the fleet must take the player
/// as a whole. The account is in the table afterwards in that case alone.
pub open spec fn link_result(
    table: Map<u64, AccountView>,
    world: World,
    chat_id: u64,
    requested_name: Seq<char>,
) -> (LinkOutcomeView, Map<u64, AccountView>) {
    match (world.resolve)(requested_name) {
        Err(ResolveError::NotFound) => (LinkOutcomeView::NameNotFound, table),
        Err(ResolveError::TransportError) => (LinkOutcomeView::SystemIssue, table),
        Ok(identity) => match link_verdict(table, chat_id, identity) {
            Err(StoreError::AlreadyLinkedChatId) => (LinkOutcomeView::AlreadyLinkedChatId, table),
            Err(StoreError::AlreadyLinkedGameIdentity) => (
                LinkOutcomeView::AlreadyLinkedGameIdentity,
                table,
            ),
            Err(StoreError::StorageError) => (LinkOutcomeView::SystemIssue, table),
            Ok(_) => if (world.fleet)(0, WhitelistAction::Add, identity.display_name)
                is AllSucceeded {
                (
                    LinkOutcomeView::Done(identity),
                    table.insert(chat_id, account_of(chat_id, identity)),
                )
            } else {
                (LinkOutcomeView::FleetFailed, table)
            },
        },
    }
}

/// Driving the link step by step comes to what [`link_result`] says.
pub proof fn link_end_is_result(
    table: Map<u64, AccountView>,
    world: World,
    chat_id: u64,
    requested_name: Seq<char>,
)
    ensures
        link_end(table, world, chat_id, requested_name) == link_result(
            table,
            world,
            chat_id,
            requested_name,
        ),
{
    reveal_with_fuel(link_run, 5);
    match (world.resolve)(requested_name) {
        Ok(identity) => {
            if link_verdict(table, chat_id, identity) is Ok {
                assert(table.insert(chat_id, account_of(chat_id, identity)).remove(chat_id)
                    =~= table);
            }
        },
        Err(_) => {},
    }
}

/// When the fleet does not take the player as a whole, the account that
/// this link stored is gone afterwards, and the table is as it was before
/// the link.
pub proof fn failed_fleet_leaves_no_account(
    table: Map<u64, AccountView>,
    world: World,
    chat_id: u64,
    requested_name: Seq<char>,
)
    requires
        (world.resolve)(requested_name) matches Ok(identity) && link_verdict(
            table,
            chat_id,
            identity,
        ) is Ok && !((world.fleet)(0, WhitelistAction::Add, identity.display_name) is AllSucceeded),
    ensures
        link_end(table, world, chat_id, requested_name).0 == LinkOutcomeView::FleetFailed,
        link_end(table, world, chat_id, requested_name).1 == table,
        !link_end(table, world, chat_id, requested_name).1.dom().contains(chat_id),
{
    link_end_is_result(table, world, chat_id, requested_name);
}

/// A link ends as `Done` exactly when the account is in the table
/// afterwards as this link wrote it; every other outcome leaves the table
/// as it was.
pub proof fn link_changes_table_only_when_done(
    table: Map<u64, AccountView>,
    world: World,
    chat_id: u64,
    requested_name: Seq<char>,
)
    ensures
        ({
            let (outcome, after) = link_end(table, world, chat_id, requested_name);
            &&& outcome matches LinkOutcomeView::Done(identity) ==> after == after_link(
                table,
                chat_id,
                identity,
            ) && after.dom().contains(chat_id) && after[chat_id] == account_of(chat_id, identity)
            &&& !(outcome is Done) ==> after == table
        }),
{
    link_end_is_result(table, world, chat_id, requested_name);
}

/// A link leaves a consistent table consistent, however it ends.
pub proof fn link_end_keeps_consistency(
    table: Map<u64, AccountView>,
    world: World,
    chat_id: u64,
    requested_name: Seq<char>,
)
    requires
        consistent(table),
    ensures
        consistent(link_end(table, world, chat_id, requested_name).1),
{
    link_end_is_result(table, world, chat_id, requested_name);
    match (world.resolve)(requested_name) {
        Ok(identity) => {
            link_keeps_consistency(table, chat_id, identity);
        },
        Err(_) => {},
    }
}

/// A link for a chat identity that has an account ends as
/// `AlreadyLinkedChatId`, whenever the requested name resolves, and leaves
/// the table as it was.
pub proof fn linked_chat_identity_is_refused(
    table: Map<u64, AccountView>,
    world: World,
    chat_id: u64,
    requested_name: Seq<char>,
)
    requires
        table.dom().contains(chat_id),
        (world.resolve)(requested_name) is Ok,
    ensures
        link_end(table, world, chat_id, requested_name) == (
            LinkOutcomeView::AlreadyLinkedChatId,
            table,
        ),
{
    link_end_is_result(table, world, chat_id, requested_name);
}

} // verus!
