//! Unlinking a chat identity: take the player off every whitelist, and only
//! then delete the account. A fleet that does not know the stored name sets
//! off one round of recovery, in which the current name of the game
//! identity is looked up and the removal is tried once more under it.
//!
//! The workflow is a state machine. It decides what is to be done next; the
//! caller does it, and reports how it went.

use crate::fleet::{FleetOutcome, FleetOutcomeView};
use crate::model::{
    Account, AccountView, DisplayNameHistoryEntry, DisplayNameHistoryEntryView, GameIdentity,
    GameIdentityView,
};
use crate::remote::WhitelistAction;
use crate::resolver::{current_name, current_name_of, resolution_view, timeline_view, ResolveError};
use crate::store::consistent;
use crate::world::World;
use vstd::prelude::*;

verus! {

/// Why an unlink failed. The account is kept in every case.
#[derive(Debug, Clone, Copy, PartialEq, Eq, Structural)]
pub enum UnlinkFailure {
    /// A server stayed unreachable during a removal.
    FleetUnreachable,
    /// The fleet does not know the player under the current name either.
    PlayerStillUnknown,
    /// The current name of the game identity cannot be determined.
    CurrentNameUnknown,
    /// The identity service or the storage failed; worth trying again later.
    SystemIssue,
}

/// How an unlink ended.
#[derive(Debug, Clone, Copy, PartialEq, Eq, Structural)]
pub enum UnlinkOutcome {
    /// The player is off every whitelist and the account is deleted.
    Done,
    /// The unlink stopped, for the reason given; the account was not deleted.
    Failed(UnlinkFailure),
    /// The chat identity was never linked; nothing was done.
    NoOp,
}

/// Where an unlink stands.
#[derive(Debug, PartialEq, Eq)]
pub enum UnlinkState {
    /// The account is being looked up.
    Start { chat_id: u64 },
    /// The fleet is being told to remove the stored name.
    FleetRemove { chat_id: u64, account: Account },
    /// The timeline of display names of the game identity is being fetched.
    RecoveryLookup { chat_id: u64 },
    /// The current name is being resolved afresh.
    RecoveryResolve { chat_id: u64 },
    /// The fleet is being told to remove the current name.
    RecoveryFleetRemove { chat_id: u64 },
    /// The removal is confirmed; the account is being deleted.
    Deleting { chat_id: u64 },
    /// The unlink is over.
    Finished,
}

/// What an [`UnlinkState`] holds.
pub ghost enum UnlinkStateView {
    Start { chat_id: u64 },
    FleetRemove { chat_id: u64, account: AccountView },
    RecoveryLookup { chat_id: u64 },
    RecoveryResolve { chat_id: u64 },
    RecoveryFleetRemove { chat_id: u64 },
    Deleting { chat_id: u64 },
    Finished,
}

impl View for UnlinkState {
    type V = UnlinkStateView;

    open spec fn view(&self) -> UnlinkStateView {
        match *self {
            UnlinkState::Start { chat_id } => UnlinkStateView::Start { chat_id },
            UnlinkState::FleetRemove { chat_id, account } => UnlinkStateView::FleetRemove {
                chat_id,
                account: account@,
            },
            UnlinkState::RecoveryLookup { chat_id } => UnlinkStateView::RecoveryLookup { chat_id },
            UnlinkState::RecoveryResolve { chat_id } => UnlinkStateView::RecoveryResolve {
                chat_id,
            },
            UnlinkState::RecoveryFleetRemove { chat_id } => UnlinkStateView::RecoveryFleetRemove {
                chat_id,
            },
            UnlinkState::Deleting { chat_id } => UnlinkStateView::Deleting { chat_id },
            UnlinkState::Finished => UnlinkStateView::Finished,
        }
    }
}

/// What the caller reports back to an unlink.
#[derive(Debug, PartialEq, Eq)]
pub enum UnlinkEvent {
    /// The storage answered the lookup by chat identity.
    Looked(Option<Account>),
    /// A fan-out over the fleet ended.
    FleetDone(FleetOutcome),
    /// The identity service answered the request for a timeline, oldest
    /// name first.
    History(Result<Vec<DisplayNameHistoryEntry>, ResolveError>),
    /// The identity service answered the lookup by name.
    Resolved(Result<GameIdentity, ResolveError>),
    /// The storage deleted the account; whether there was a row to remove.
    Deleted(bool),
}

/// What an [`UnlinkEvent`] holds.
pub ghost enum UnlinkEventView {
    Looked(Option<AccountView>),
    FleetDone(FleetOutcomeView),
    History(Result<Seq<DisplayNameHistoryEntryView>, ResolveError>),
    Resolved(Result<GameIdentityView, ResolveError>),
    Deleted(bool),
}

impl View for UnlinkEvent {
    type V = UnlinkEventView;

    open spec fn view(&self) -> UnlinkEventView {
        match *self {
            UnlinkEvent::Looked(found) => UnlinkEventView::Looked(
                match found {
                    Some(account) => Some(account@),
                    None => None,
                },
            ),
            UnlinkEvent::FleetDone(outcome) => UnlinkEventView::FleetDone(outcome@),
            UnlinkEvent::History(fetched) => UnlinkEventView::History(timeline_view(fetched)),
            UnlinkEvent::Resolved(resolved) => UnlinkEventView::Resolved(
                resolution_view(resolved),
            ),
            UnlinkEvent::Deleted(removed) => UnlinkEventView::Deleted(removed),
        }
    }
}

/// What an unlink asks its caller to do next.
#[derive(Debug, PartialEq, Eq)]
pub enum UnlinkAction {
    /// Look up the account of the chat identity in the storage.
    Lookup { chat_id: u64 },
    /// Have every server of the fleet remove the player of this name.
    Remove { display_name: String },
    /// Ask the identity service for the timeline of display names of this
    /// canonical identifier.
    FetchHistory { canonical_id: String },
    /// Ask the identity service for the player of this display name.
    Resolve { display_name: String },
    /// Delete the account of the chat identity from the storage.
    Delete { chat_id: u64 },
    /// Nothing more; the unlink ended like this.
    Finish(UnlinkOutcome),
}

/// What an [`UnlinkAction`] holds.
pub ghost enum UnlinkActionView {
    Lookup { chat_id: u64 },
    Remove { display_name: Seq<char> },
    FetchHistory { canonical_id: Seq<char> },
    Resolve { display_name: Seq<char> },
    Delete { chat_id: u64 },
    Finish(UnlinkOutcome),
}

impl View for UnlinkAction {
    type V = UnlinkActionView;

    open spec fn view(&self) -> UnlinkActionView {
        match *self {
            UnlinkAction::Lookup { chat_id } => UnlinkActionView::Lookup { chat_id },
            UnlinkAction::Remove { display_name } => UnlinkActionView::Remove {
                display_name: display_name@,
            },
            UnlinkAction::FetchHistory { canonical_id } => UnlinkActionView::FetchHistory {
                canonical_id: canonical_id@,
            },
            UnlinkAction::Resolve { display_name } => UnlinkActionView::Resolve {
                display_name: display_name@,
            },
            UnlinkAction::Delete { chat_id } => UnlinkActionView::Delete { chat_id },
            UnlinkAction::Finish(outcome) => UnlinkActionView::Finish(outcome),
        }
    }
}

/// The first step of an unlink of `chat_id`: look up its account.
pub open spec fn unlink_first(chat_id: u64) -> (UnlinkStateView, UnlinkActionView) {
    (UnlinkStateView::Start { chat_id }, UnlinkActionView::Lookup { chat_id })
}

/// The outcome with which an unlink stops where it stands.
pub open spec fn unlink_stop(outcome: UnlinkOutcome) -> (UnlinkStateView, UnlinkActionView) {
    (UnlinkStateView::Finished, UnlinkActionView::Finish(outcome))
}

/// The failure with which an unlink stops where it stands.
pub open spec fn unlink_fail(failure: UnlinkFailure) -> (UnlinkStateView, UnlinkActionView) {
    unlink_stop(UnlinkOutcome::Failed(failure))
}

/// How a resolver's refusal ends an unlink: an identity or name that is not
/// known leaves the current name undetermined, a failed transport is a
/// system issue.
pub open spec fn resolver_failure(e: ResolveError) -> UnlinkFailure {
    match e {
        ResolveError::NotFound => UnlinkFailure::CurrentNameUnknown,
        ResolveError::TransportError => UnlinkFailure::SystemIssue,
    }
}

/// The step that follows `state` once the caller reports `event`.
///
/// Without an account there is nothing to do. With one, the fleet removes
/// the stored name. A fleet that succeeded as a whole has the account
/// deleted, and the unlink is done once the storage has answered. A fleet
/// with an unreachable server ends the unlink as a failure. A fleet that
/// does not know the player starts the recovery: the timeline of the game
/// identity is fetched, the name of its last entry is resolved afresh, and
/// the fleet removes the display name of the identity so found, once; any
/// answer of the fleet but a success as a whole then ends the unlink as a
/// failure. An empty timeline, or a name or identity that the service does
/// not know, ends it too. A report that does not answer what was asked ends
/// it as a system issue. The deletion is asked for in the two places named,
/// and nowhere else.
pub open spec fn unlink_next(state: UnlinkStateView, event: UnlinkEventView) -> (
    UnlinkStateView,
    UnlinkActionView,
) {
    match state {
        UnlinkStateView::Start { chat_id } => match event {
            UnlinkEventView::Looked(None) => unlink_stop(UnlinkOutcome::NoOp),
            UnlinkEventView::Looked(Some(account)) => (
                UnlinkStateView::FleetRemove { chat_id, account },
                UnlinkActionView::Remove { display_name: account.game_display_name },
            ),
            _ => unlink_fail(UnlinkFailure::SystemIssue),
        },
        UnlinkStateView::FleetRemove { chat_id, account } => match event {
            UnlinkEventView::FleetDone(FleetOutcomeView::AllSucceeded) => (
                UnlinkStateView::Deleting { chat_id },
                UnlinkActionView::Delete { chat_id },
            ),
            UnlinkEventView::FleetDone(FleetOutcomeView::PartialFailure(_)) => unlink_fail(
                UnlinkFailure::FleetUnreachable,
            ),
            UnlinkEventView::FleetDone(FleetOutcomeView::PlayerUnknown) => (
                UnlinkStateView::RecoveryLookup { chat_id },
                UnlinkActionView::FetchHistory { canonical_id: account.game_identity },
            ),
            _ => unlink_fail(UnlinkFailure::SystemIssue),
        },
        UnlinkStateView::RecoveryLookup { chat_id } => match event {
            UnlinkEventView::History(Ok(history)) => match current_name_of(history) {
                Some(display_name) => (
                    UnlinkStateView::RecoveryResolve { chat_id },
                    UnlinkActionView::Resolve { display_name },
                ),
                None => unlink_fail(UnlinkFailure::CurrentNameUnknown),
            },
            UnlinkEventView::History(Err(e)) => unlink_fail(resolver_failure(e)),
            _ => unlink_fail(UnlinkFailure::SystemIssue),
        },
        UnlinkStateView::RecoveryResolve { chat_id } => match event {
            UnlinkEventView::Resolved(Ok(identity)) => (
                UnlinkStateView::RecoveryFleetRemove { chat_id },
                UnlinkActionView::Remove { display_name: identity.display_name },
            ),
            UnlinkEventView::Resolved(Err(e)) => unlink_fail(resolver_failure(e)),
            _ => unlink_fail(UnlinkFailure::SystemIssue),
        },
        UnlinkStateView::RecoveryFleetRemove { chat_id } => match event {
            UnlinkEventView::FleetDone(FleetOutcomeView::AllSucceeded) => (
                UnlinkStateView::Deleting { chat_id },
                UnlinkActionView::Delete { chat_id },
            ),
            UnlinkEventView::FleetDone(FleetOutcomeView::PartialFailure(_)) => unlink_fail(
                UnlinkFailure::FleetUnreachable,
            ),
            UnlinkEventView::FleetDone(FleetOutcomeView::PlayerUnknown) => unlink_fail(
                UnlinkFailure::PlayerStillUnknown,
            ),
            _ => unlink_fail(UnlinkFailure::SystemIssue),
        },
        UnlinkStateView::Deleting { .. } => match event {
            UnlinkEventView::Deleted(_) => unlink_stop(UnlinkOutcome::Done),
            _ => unlink_fail(UnlinkFailure::SystemIssue),
        },
        UnlinkStateView::Finished => unlink_fail(UnlinkFailure::SystemIssue),
    }
}

/// Starts an unlink of `chat_id`.
pub fn unlink_begin(chat_id: u64) -> (r: (UnlinkState, UnlinkAction))
    ensures
        (r.0@, r.1@) == unlink_first(chat_id),
{
    (UnlinkState::Start { chat_id }, UnlinkAction::Lookup { chat_id })
}

fn stop(outcome: UnlinkOutcome) -> (r: (UnlinkState, UnlinkAction))
    ensures
        (r.0@, r.1@) == unlink_stop(outcome),
{
    (UnlinkState::Finished, UnlinkAction::Finish(outcome))
}

fn fail(failure: UnlinkFailure) -> (r: (UnlinkState, UnlinkAction))
    ensures
        (r.0@, r.1@) == unlink_fail(failure),
{
    stop(UnlinkOutcome::Failed(failure))
}

fn fail_on(e: ResolveError) -> (r: (UnlinkState, UnlinkAction))
    ensures
        (r.0@, r.1@) == unlink_fail(resolver_failure(e)),
{
    match e {
        ResolveError::NotFound => fail(UnlinkFailure::CurrentNameUnknown),
        ResolveError::TransportError => fail(UnlinkFailure::SystemIssue),
    }
}

/// Takes the caller's report and decides what comes next.
pub fn unlink_advance(state: UnlinkState, event: UnlinkEvent) -> (r: (UnlinkState, UnlinkAction))
    ensures
        (r.0@, r.1@) == unlink_next(state@, event@),
{
    match state {
        UnlinkState::Start { chat_id } => match event {
            UnlinkEvent::Looked(None) => stop(UnlinkOutcome::NoOp),
            UnlinkEvent::Looked(Some(account)) => {
                let display_name = account.game_display_name.clone();
                (UnlinkState::FleetRemove { chat_id, account }, UnlinkAction::Remove { display_name })
            },
            _ => fail(UnlinkFailure::SystemIssue),
        },
        UnlinkState::FleetRemove { chat_id, account } => match event {
            UnlinkEvent::FleetDone(FleetOutcome::AllSucceeded) => (
                UnlinkState::Deleting { chat_id },
                UnlinkAction::Delete { chat_id },
            ),
            UnlinkEvent::FleetDone(FleetOutcome::PartialFailure(_)) => fail(
                UnlinkFailure::FleetUnreachable,
            ),
            UnlinkEvent::FleetDone(FleetOutcome::PlayerUnknown) => (
                UnlinkState::RecoveryLookup { chat_id },
                UnlinkAction::FetchHistory { canonical_id: account.game_identity },
            ),
            _ => fail(UnlinkFailure::SystemIssue),
        },
        UnlinkState::RecoveryLookup { chat_id } => match event {
            UnlinkEvent::History(Ok(history)) => match current_name(&history) {
                Some(display_name) => (
                    UnlinkState::RecoveryResolve { chat_id },
                    UnlinkAction::Resolve { display_name },
                ),
                None => fail(UnlinkFailure::CurrentNameUnknown),
            },
            UnlinkEvent::History(Err(e)) => fail_on(e),
            _ => fail(UnlinkFailure::SystemIssue),
        },
        UnlinkState::RecoveryResolve { chat_id } => match event {
            UnlinkEvent::Resolved(Ok(identity)) => (
                UnlinkState::RecoveryFleetRemove { chat_id },
                UnlinkAction::Remove { display_name: identity.display_name },
            ),
            UnlinkEvent::Resolved(Err(e)) => fail_on(e),
            _ => fail(UnlinkFailure::SystemIssue),
        },
        UnlinkState::RecoveryFleetRemove { chat_id } => match event {
            UnlinkEvent::FleetDone(FleetOutcome::AllSucceeded) => (
                UnlinkState::Deleting { chat_id },
                UnlinkAction::Delete { chat_id },
            ),
            UnlinkEvent::FleetDone(FleetOutcome::PartialFailure(_)) => fail(
                UnlinkFailure::FleetUnreachable,
            ),
            UnlinkEvent::FleetDone(FleetOutcome::PlayerUnknown) => fail(
                UnlinkFailure::PlayerStillUnknown,
            ),
            _ => fail(UnlinkFailure::SystemIssue),
        },
        UnlinkState::Deleting { .. } => match event {
            UnlinkEvent::Deleted(_) => stop(UnlinkOutcome::Done),
            _ => fail(UnlinkFailure::SystemIssue),
        },
        UnlinkState::Finished => fail(UnlinkFailure::SystemIssue),
    }
}

/// What the caller reports after carrying out `action` on the account
/// table `table` in the world `world`, and the table as the action leaves
/// it. `state` is the state in which the unlink waits for the report: it
/// tells the first removal from the second.
pub open spec fn unlink_report(
    state: UnlinkStateView,
    action: UnlinkActionView,
    table: Map<u64, AccountView>,
    world: World,
) -> (UnlinkEventView, Map<u64, AccountView>) {
    match action {
        UnlinkActionView::Lookup { chat_id } => (
            UnlinkEventView::Looked(
                if table.dom().contains(chat_id) {
                    Some(table[chat_id])
                } else {
                    None
                },
            ),
            table,
        ),
        UnlinkActionView::Remove { display_name } => (
            UnlinkEventView::FleetDone(
                (world.fleet)(
                    if state is RecoveryFleetRemove {
                        1
                    } else {
                        0
                    },
                    WhitelistAction::Remove,
                    display_name,
                ),
            ),
            table,
        ),
        UnlinkActionView::FetchHistory { canonical_id } => (
            UnlinkEventView::History((world.history)(canonical_id)),
            table,
        ),
        UnlinkActionView::Resolve { display_name } => (
            UnlinkEventView::Resolved((world.resolve)(display_name)),
            table,
        ),
        UnlinkActionView::Delete { chat_id } => (
            UnlinkEventView::Deleted(table.dom().contains(chat_id)),
            table.remove(chat_id),
        ),
        UnlinkActionView::Finish(_) => (UnlinkEventView::Deleted(false), table),
    }
}

/// The end of an unlink that stands at `state` with `action` asked for: the
/// caller carries out each action and reports, at most `steps` times, until
/// the unlink finishes.
pub open spec fn unlink_run(
    state: UnlinkStateView,
    action: UnlinkActionView,
    table: Map<u64, AccountView>,
    world: World,
    steps: nat,
) -> (UnlinkOutcome, Map<u64, AccountView>)
    decreases steps,
{
    match action {
        UnlinkActionView::Finish(outcome) => (outcome, table),
        _ => if steps == 0 {
            (UnlinkOutcome::Failed(UnlinkFailure::SystemIssue), table)
        } else {
            let (event, next_table) = unlink_report(state, action, table, world);
            let (next_state, next_action) = unlink_next(state, event);
            unlink_run(next_state, next_action, next_table, world, (steps - 1) as nat)
        },
    }
}

/// The outcome of a whole unlink of `chat_id`, and the account table after
/// it. No unlink takes more than six actions.
pub open spec fn unlink_end(table: Map<u64, AccountView>, world: World, chat_id: u64) -> (
    UnlinkOutcome,
    Map<u64, AccountView>,
) {
    let (state, action) = unlink_first(chat_id);
    unlink_run(state, action, table, world, 6)
}

/// How the recovery for `account` ends: whether the player was removed
/// under the current name of the game identity, or why not.
pub open spec fn recovery_result(world: World, account: AccountView) -> UnlinkOutcome {
    match (world.history)(account.game_identity) {
        Err(e) => UnlinkOutcome::Failed(resolver_failure(e)),
        Ok(history) => match current_name_of(history) {
            None => UnlinkOutcome::Failed(UnlinkFailure::CurrentNameUnknown),
            Some(current) => match (world.resolve)(current) {
                Err(e) => UnlinkOutcome::Failed(resolver_failure(e)),
                Ok(fresh) => match (world.fleet)(1, WhitelistAction::Remove, fresh.display_name) {
                    FleetOutcomeView::AllSucceeded => UnlinkOutcome::Done,
                    FleetOutcomeView::PartialFailure(_) => UnlinkOutcome::Failed(
                        UnlinkFailure::FleetUnreachable,
                    ),
                    FleetOutcomeView::PlayerUnknown => UnlinkOutcome::Failed(
                        UnlinkFailure::PlayerStillUnknown,
                    ),
                },
            },
        },
    }
}

/// How an unlink of `chat_id` ends, said directly: nothing happens without
/// an account; the removal of the stored name decides otherwise, and the
/// recovery where the fleet does not know that name.
pub open spec fn unlink_outcome(table: Map<u64, AccountView>, world: World, chat_id: u64)
    -> UnlinkOutcome {
    if !table.dom().contains(chat_id) {
        UnlinkOutcome::NoOp
    } else {
        let account = table[chat_id];
        match (world.fleet)(0, WhitelistAction::Remove, account.game_display_name) {
            FleetOutcomeView::AllSucceeded => UnlinkOutcome::Done,
            FleetOutcomeView::PartialFailure(_) => UnlinkOutcome::Failed(
                UnlinkFailure::FleetUnreachable,
            ),
            FleetOutcomeView::PlayerUnknown => recovery_result(world, account),
        }
    }
}

/// What an unlink comes to, said directly: the outcome, and the table with
/// the account deleted when the outcome is `Done`, untouched otherwise.
pub open spec fn unlink_result(table: Map<u64, AccountView>, world: World, chat_id: u64) -> (
    UnlinkOutcome,
    Map<u64, AccountView>,
) {
    let outcome = unlink_outcome(table, world, chat_id);
    if outcome is Done {
        (outcome, table.remove(chat_id))
    } else {
        (outcome, table)
    }
}

/// Driving the unlink step by step comes to what [`unlink_result`] says.
pub proof fn unlink_end_is_result(table: Map<u64, AccountView>, world: World, chat_id: u64)
    ensures
        unlink_end(table, world, chat_id) == unlink_result(table, world, chat_id),
{
    reveal_with_fuel(unlink_run, 7);
}

/// An unlink that fails leaves the account where it is: the table is as it
/// was, and it still holds the account of the chat identity.
pub proof fn failed_unlink_keeps_account(
    table: Map<u64, AccountView>,
    world: World,
    chat_id: u64,
)
    requires
        unlink_end(table, world, chat_id).0 is Failed,
    ensures
        unlink_end(table, world, chat_id).1 == table,
        table.dom().contains(chat_id),
{
    unlink_end_is_result(table, world, chat_id);
}

/// The account is deleted exactly when the unlink is done, and nothing
/// else in the table changes.
pub proof fn unlink_deletes_only_when_done(
    table: Map<u64, AccountView>,
    world: World,
    chat_id: u64,
)
    ensures
        ({
            let (outcome, after) = unlink_end(table, world, chat_id);
            &&& outcome is Done ==> table.dom().contains(chat_id) && after == table.remove(chat_id)
            &&& !(outcome is Done) ==> after == table
            &&& outcome is NoOp <==> !table.dom().contains(chat_id)
        }),
{
    unlink_end_is_result(table, world, chat_id);
}

/// An unlink leaves a consistent table consistent.
pub proof fn unlink_keeps_consistency(table: Map<u64, AccountView>, world: World, chat_id: u64)
    requires
        consistent(table),
    ensures
        consistent(unlink_end(table, world, chat_id).1),
{
    unlink_end_is_result(table, world, chat_id);
}

/// A player who was renamed is still removed: when the fleet does not know
/// the stored name, the timeline of the game identity ends in a name that
/// resolves, and the fleet takes the removal of the player so found, the
/// unlink is done and the account is deleted.
pub proof fn renamed_player_is_unlinked(
    table: Map<u64, AccountView>,
    world: World,
    chat_id: u64,
    history: Seq<DisplayNameHistoryEntryView>,
    fresh: GameIdentityView,
)
    requires
        table.dom().contains(chat_id),
        (world.fleet)(0, WhitelistAction::Remove, table[chat_id].game_display_name)
            is PlayerUnknown,
        (world.history)(table[chat_id].game_identity) == Ok::<
            Seq<DisplayNameHistoryEntryView>,
            ResolveError,
        >(history),
        history.len() > 0,
        (world.resolve)(history.last().display_name) == Ok::<GameIdentityView, ResolveError>(
            fresh,
        ),
        (world.fleet)(1, WhitelistAction::Remove, fresh.display_name) is AllSucceeded,
    ensures
        unlink_end(table, world, chat_id) == (UnlinkOutcome::Done, table.remove(chat_id)),
        !unlink_end(table, world, chat_id).1.dom().contains(chat_id),
{
    unlink_end_is_result(table, world, chat_id);
}

} // verus!
