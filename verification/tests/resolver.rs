use url::Url;
use whitelist_link::model::{DisplayNameHistoryEntry, GameIdentity};
use whitelist_link::resolver::{
    address_or_transport_error, current_name, identity_from_matches, name_history_url,
    name_lookup_url, ResolveError,
};

fn found(id: &str, name: &str) -> GameIdentity {
    GameIdentity { canonical_id: id.to_string(), display_name: name.to_string() }
}

fn entry(name: &str, changed_at: Option<u64>) -> DisplayNameHistoryEntry {
    DisplayNameHistoryEntry { display_name: name.to_string(), changed_at }
}

#[test]
fn first_match_is_the_identity() {
    assert_eq!(
        identity_from_matches(Some(vec![found("abc", "Steve"), found("def", "Alex")])),
        Ok(found("abc", "Steve"))
    );
}

#[test]
fn no_match_is_not_found() {
    assert_eq!(identity_from_matches(Some(Vec::new())), Err(ResolveError::NotFound));
}

#[test]
fn no_answer_is_a_transport_error() {
    assert_eq!(identity_from_matches(None), Err(ResolveError::TransportError));
}

#[test]
fn current_name_is_that_of_the_last_entry() {
    let history = vec![
        entry("Oldname", None),
        entry("Midname", Some(1_500_000_000_000)),
        entry("Newname", Some(1_600_000_000_000)),
    ];
    assert_eq!(current_name(&history), Some("Newname".to_string()));
    assert_eq!(current_name(&vec![entry("Only", None)]), Some("Only".to_string()));
}

#[test]
fn empty_history_has_no_current_name() {
    assert_eq!(current_name(&Vec::new()), None);
}

#[test]
fn history_entry_can_be_cloned() {
    let e = entry("Steve", Some(3));
    assert_eq!(e.clone(), e);
}

#[test]
fn name_lookup_address() {
    assert_eq!(name_lookup_url(), "https://api.mojang.com/profiles/minecraft");
}

#[test]
fn name_history_address_of_an_identifier() {
    assert_eq!(
        name_history_url("069a79f444e94726a5befca90e38aaf5"),
        Ok("https://api.mojang.com/user/profiles//069a79f444e94726a5befca90e38aaf5/names"
            .to_string())
    );
}

#[test]
fn name_history_address_is_the_parsed_form() {
    assert_eq!(
        name_history_url("a b"),
        Ok("https://api.mojang.com/user/profiles//a%20b/names".to_string())
    );
    let written = "https://api.mojang.com/user/profiles//a b/names";
    assert_eq!(name_history_url("a b"), Ok(String::from(Url::parse(written).unwrap())));
}

#[test]
fn parsed_address_is_passed_on() {
    let parsed = Url::parse("HTTPS://Example.org").map(String::from);
    assert_eq!(address_or_transport_error(parsed), Ok("https://example.org/".to_string()));
}

#[test]
fn text_that_is_no_address_is_a_transport_error() {
    let parsed = Url::parse("not an address").map(String::from);
    assert!(parsed.is_err());
    assert_eq!(address_or_transport_error(parsed), Err(ResolveError::TransportError));
}
