use whitelist_link::error::WhitelistErrorKind;
use whitelist_link::model::ServerTarget;
use whitelist_link::remote::{
    classify_reply, classify_session, command_text, endpoint_address, CommandOutcome,
    WhitelistAction,
};

#[test]
fn command_text_for_add_and_remove() {
    assert_eq!(command_text(WhitelistAction::Add, "Steve"), "whitelist add Steve");
    assert_eq!(command_text(WhitelistAction::Remove, "Steve"), "whitelist remove Steve");
    assert_eq!(command_text(WhitelistAction::Add, ""), "whitelist add ");
}

#[test]
fn reply_that_player_does_not_exist_is_player_unknown() {
    assert_eq!(
        classify_reply("That player does not exist".to_string()),
        CommandOutcome::PlayerUnknown
    );
}

#[test]
fn sentinel_reply_is_case_sensitive_and_exact() {
    assert_eq!(
        classify_reply("that player does not exist".to_string()),
        CommandOutcome::Success("that player does not exist".to_string())
    );
    assert_eq!(
        classify_reply("That player does not exist.".to_string()),
        CommandOutcome::Success("That player does not exist.".to_string())
    );
    assert_eq!(classify_reply(String::new()), CommandOutcome::Success(String::new()));
}

#[test]
fn other_replies_are_success_with_the_raw_reply() {
    assert_eq!(
        classify_reply("Added Steve to the whitelist".to_string()),
        CommandOutcome::Success("Added Steve to the whitelist".to_string())
    );
}

#[test]
fn failed_session_is_unreachable_with_its_cause() {
    assert_eq!(
        classify_session(Err("authentication failed".to_string())),
        CommandOutcome::Unreachable("authentication failed".to_string())
    );
    assert_eq!(
        classify_session(Ok("That player does not exist".to_string())),
        CommandOutcome::PlayerUnknown
    );
    assert_eq!(
        classify_session(Ok("ok".to_string())),
        CommandOutcome::Success("ok".to_string())
    );
}

#[test]
fn endpoint_address_joins_host_and_port() {
    assert_eq!(endpoint_address("127.0.0.1", 25575), "127.0.0.1:25575");
    assert_eq!(endpoint_address("mc.example.org", 0), "mc.example.org:0");
    assert_eq!(endpoint_address("h", 65535), "h:65535");
    assert_eq!(endpoint_address("h", 10), "h:10");
    assert_eq!(endpoint_address("h", 9), "h:9");
    assert_eq!(endpoint_address("h", 1005), "h:1005");
}

#[test]
fn outcome_as_result_carries_kind_and_message() {
    match CommandOutcome::Success("Added Steve".to_string()).into_result() {
        Ok(reply) => assert_eq!(reply, "Added Steve"),
        Err(_) => panic!("a success must stay a success"),
    }
    match CommandOutcome::PlayerUnknown.into_result() {
        Ok(_) => panic!("an unknown player is an error"),
        Err(e) => {
            assert_eq!(e.kind(), WhitelistErrorKind::NonExistingPlayer);
            assert_eq!(e.description(), "That player does not exist");
            assert_eq!(e.to_text(), "That player does not exist");
        }
    }
    match CommandOutcome::Unreachable("connection refused".to_string()).into_result() {
        Ok(_) => panic!("an unreachable server is an error"),
        Err(e) => {
            assert_eq!(e.kind(), WhitelistErrorKind::RCONConnectionError);
            assert_eq!(e.description(), "connection refused");
        }
    }
}

#[test]
fn server_target_is_built_from_host_port_and_secret() {
    let target = ServerTarget::new("10.0.0.7", 25575, "hunter2".to_string());
    assert_eq!(
        target,
        ServerTarget { address: "10.0.0.7:25575".to_string(), shared_secret: "hunter2".to_string() }
    );
    assert_eq!(target.clone(), target);
}
