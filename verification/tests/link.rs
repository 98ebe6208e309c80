use whitelist_link::fleet::{fleet_advance, fleet_begin, FleetOutcome, FleetStep, RetryPolicy};
use whitelist_link::link::{link_advance, link_begin, LinkAction, LinkEvent, LinkOutcome, LinkState};
use whitelist_link::model::{Account, GameIdentity};
use whitelist_link::remote::{classify_session, command_text, WhitelistAction};
use whitelist_link::resolver::ResolveError;
use whitelist_link::store::{AccountStore, StoreError};

/// Fans an add command out over `servers` servers that answer as `reply`
/// says, and notes every command that was sent.
fn add_on_fleet(
    servers: usize,
    display_name: &str,
    sent: &mut Vec<(usize, String)>,
    reply: impl Fn(usize) -> Result<String, String>,
) -> FleetOutcome {
    let policy = RetryPolicy::standard();
    let (mut progress, mut step) = fleet_begin(servers);
    loop {
        match step {
            FleetStep::Finished(outcome) => return outcome,
            FleetStep::Attempt { target, .. } => {
                sent.push((target, command_text(WhitelistAction::Add, display_name)));
                let outcome = classify_session(reply(target));
                let next = fleet_advance(&policy, servers, progress, &outcome);
                progress = next.0;
                step = next.1;
            }
        }
    }
}

fn steve() -> GameIdentity {
    GameIdentity { canonical_id: "abc".to_string(), display_name: "Steve".to_string() }
}

fn resolve_steve(name: &str) -> Result<GameIdentity, ResolveError> {
    if name == "Steve" {
        Ok(steve())
    } else {
        Err(ResolveError::NotFound)
    }
}

/// Runs a link against a store kept in memory. Returns the outcome and the
/// display names for which the fleet was asked to add a player.
fn run_link(
    store: &mut AccountStore,
    chat_id: u64,
    requested_name: &str,
    resolve: impl Fn(&str) -> Result<GameIdentity, ResolveError>,
    mut fleet: impl FnMut(&str) -> FleetOutcome,
) -> (LinkOutcome, Vec<String>) {
    let (mut state, mut action) = link_begin(chat_id, requested_name.to_string());
    let mut fan_outs: Vec<String> = Vec::new();
    loop {
        let event = match action {
            LinkAction::Finish(outcome) => {
                assert_eq!(state, LinkState::Finished);
                return (outcome, fan_outs);
            }
            LinkAction::Resolve { display_name } => LinkEvent::Resolved(resolve(&display_name)),
            LinkAction::Store { chat_id, identity } => {
                LinkEvent::Stored(store.link(chat_id, &identity))
            }
            LinkAction::Whitelist { display_name } => {
                let outcome = fleet(&display_name);
                fan_outs.push(display_name);
                LinkEvent::FleetDone(outcome)
            }
            LinkAction::RollBack { chat_id } => LinkEvent::RolledBack(store.unlink(chat_id)),
        };
        let next = link_advance(state, event);
        state = next.0;
        action = next.1;
    }
}

#[test]
fn link_with_all_servers_succeeding_is_done_and_persisted() {
    let mut store = AccountStore::new();
    let mut sent: Vec<(usize, String)> = Vec::new();
    let (outcome, fan_outs) = run_link(&mut store, 42, "Steve", resolve_steve, |name| {
        add_on_fleet(2, name, &mut sent, |_| Ok("Added Steve to the whitelist".to_string()))
    });
    assert_eq!(outcome, LinkOutcome::Done(steve()));
    assert_eq!(fan_outs, vec!["Steve".to_string()]);
    assert_eq!(
        sent,
        vec![(0, "whitelist add Steve".to_string()), (1, "whitelist add Steve".to_string())]
    );
    assert_eq!(
        store.lookup_by_chat_id(42),
        Some(Account {
            chat_id: 42,
            game_identity: "abc".to_string(),
            game_display_name: "Steve".to_string()
        })
    );
    assert_eq!(store.len(), 1);
}

#[test]
fn link_of_a_linked_chat_identity_is_already_linked_and_store_unchanged() {
    let mut store = AccountStore::new();
    assert_eq!(
        store.link(42, &GameIdentity {
            canonical_id: "old".to_string(),
            display_name: "Earlier".to_string()
        }),
        Ok(())
    );
    let before = store.clone();
    let (outcome, fan_outs) =
        run_link(&mut store, 42, "Steve", resolve_steve, |_| FleetOutcome::AllSucceeded);
    assert_eq!(outcome, LinkOutcome::AlreadyLinkedChatId);
    assert!(fan_outs.is_empty());
    assert_eq!(store, before);
}

#[test]
fn link_of_a_claimed_game_identity_is_refused_and_store_unchanged() {
    let mut store = AccountStore::new();
    assert_eq!(store.link(7, &steve()), Ok(()));
    let before = store.clone();
    let (outcome, fan_outs) =
        run_link(&mut store, 42, "Steve", resolve_steve, |_| FleetOutcome::AllSucceeded);
    assert_eq!(outcome, LinkOutcome::AlreadyLinkedGameIdentity);
    assert!(fan_outs.is_empty());
    assert_eq!(store, before);
}

#[test]
fn link_of_an_unknown_name_is_name_not_found() {
    let mut store = AccountStore::new();
    let (outcome, fan_outs) =
        run_link(&mut store, 42, "Nobody", resolve_steve, |_| FleetOutcome::AllSucceeded);
    assert_eq!(outcome, LinkOutcome::NameNotFound);
    assert!(fan_outs.is_empty());
    assert_eq!(store.len(), 0);
}

#[test]
fn link_with_a_failed_transport_is_a_system_issue() {
    let mut store = AccountStore::new();
    let (outcome, fan_outs) = run_link(
        &mut store,
        42,
        "Steve",
        |_| Err(ResolveError::TransportError),
        |_| FleetOutcome::AllSucceeded,
    );
    assert_eq!(outcome, LinkOutcome::SystemIssue);
    assert!(fan_outs.is_empty());
    assert_eq!(store.len(), 0);
}

#[test]
fn link_with_an_unreachable_server_takes_the_account_back() {
    let mut store = AccountStore::new();
    let (outcome, fan_outs) = run_link(&mut store, 42, "Steve", resolve_steve, |_| {
        FleetOutcome::PartialFailure(vec![1])
    });
    assert_eq!(outcome, LinkOutcome::FleetFailed);
    assert_eq!(fan_outs, vec!["Steve".to_string()]);
    assert_eq!(store.lookup_by_chat_id(42), None);
    assert_eq!(store, AccountStore::new());
}

#[test]
fn link_with_a_server_that_stays_down_takes_the_account_back() {
    let mut store = AccountStore::new();
    let mut sent: Vec<(usize, String)> = Vec::new();
    let (outcome, _) = run_link(&mut store, 42, "Steve", resolve_steve, |name| {
        add_on_fleet(2, name, &mut sent, |server| {
            if server == 0 {
                Ok("Added Steve to the whitelist".to_string())
            } else {
                Err("connection refused".to_string())
            }
        })
    });
    assert_eq!(outcome, LinkOutcome::FleetFailed);
    assert_eq!(sent.len(), 11);
    assert_eq!(store.lookup_by_chat_id(42), None);
    assert_eq!(store.len(), 0);
}

#[test]
fn link_with_an_unknown_player_on_the_fleet_takes_the_account_back() {
    let mut store = AccountStore::new();
    assert_eq!(
        store.link(1, &GameIdentity {
            canonical_id: "zzz".to_string(),
            display_name: "Other".to_string()
        }),
        Ok(())
    );
    let before = store.clone();
    let (outcome, _) =
        run_link(&mut store, 42, "Steve", resolve_steve, |_| FleetOutcome::PlayerUnknown);
    assert_eq!(outcome, LinkOutcome::FleetFailed);
    assert_eq!(store.lookup_by_chat_id(42), None);
    assert_eq!(store, before);
}

#[test]
fn link_whitelists_the_resolved_name_not_the_requested_one() {
    let mut store = AccountStore::new();
    let (outcome, fan_outs) = run_link(
        &mut store,
        42,
        "steve",
        |_| Ok(steve()),
        |_| FleetOutcome::AllSucceeded,
    );
    assert_eq!(outcome, LinkOutcome::Done(steve()));
    assert_eq!(fan_outs, vec!["Steve".to_string()]);
}

#[test]
fn single_steps_of_a_link() {
    assert_eq!(
        link_begin(42, "Steve".to_string()),
        (
            LinkState::Resolving { chat_id: 42 },
            LinkAction::Resolve { display_name: "Steve".to_string() }
        )
    );
    assert_eq!(
        link_advance(LinkState::Resolving { chat_id: 42 }, LinkEvent::Resolved(Ok(steve()))),
        (
            LinkState::Storing { chat_id: 42, identity: steve() },
            LinkAction::Store { chat_id: 42, identity: steve() }
        )
    );
    assert_eq!(
        link_advance(LinkState::Storing { chat_id: 42, identity: steve() }, LinkEvent::Stored(Ok(()))),
        (
            LinkState::Whitelisting { chat_id: 42, identity: steve() },
            LinkAction::Whitelist { display_name: "Steve".to_string() }
        )
    );
    assert_eq!(
        link_advance(
            LinkState::Whitelisting { chat_id: 42, identity: steve() },
            LinkEvent::FleetDone(FleetOutcome::PlayerUnknown)
        ),
        (LinkState::RollingBack { chat_id: 42 }, LinkAction::RollBack { chat_id: 42 })
    );
    assert_eq!(
        link_advance(LinkState::RollingBack { chat_id: 42 }, LinkEvent::RolledBack(true)),
        (LinkState::Finished, LinkAction::Finish(LinkOutcome::FleetFailed))
    );
}

#[test]
fn storage_failure_is_a_system_issue() {
    assert_eq!(
        link_advance(
            LinkState::Storing { chat_id: 42, identity: steve() },
            LinkEvent::Stored(Err(StoreError::StorageError))
        ),
        (LinkState::Finished, LinkAction::Finish(LinkOutcome::SystemIssue))
    );
}

#[test]
fn report_that_answers_nothing_asked_ends_the_link() {
    assert_eq!(
        link_advance(LinkState::Resolving { chat_id: 1 }, LinkEvent::RolledBack(true)),
        (LinkState::Finished, LinkAction::Finish(LinkOutcome::SystemIssue))
    );
    assert_eq!(
        link_advance(
            LinkState::Storing { chat_id: 1, identity: steve() },
            LinkEvent::FleetDone(FleetOutcome::AllSucceeded)
        ),
        (LinkState::Finished, LinkAction::Finish(LinkOutcome::SystemIssue))
    );
    assert_eq!(
        link_advance(LinkState::Finished, LinkEvent::Stored(Ok(()))),
        (LinkState::Finished, LinkAction::Finish(LinkOutcome::SystemIssue))
    );
}

#[test]
fn stored_account_is_taken_back_on_any_report_but_success() {
    assert_eq!(
        link_advance(
            LinkState::Whitelisting { chat_id: 9, identity: steve() },
            LinkEvent::Stored(Ok(()))
        ),
        (LinkState::RollingBack { chat_id: 9 }, LinkAction::RollBack { chat_id: 9 })
    );
    assert_eq!(
        link_advance(LinkState::RollingBack { chat_id: 9 }, LinkEvent::RolledBack(false)),
        (LinkState::Finished, LinkAction::Finish(LinkOutcome::FleetFailed))
    );
}
