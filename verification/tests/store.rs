use whitelist_link::model::{Account, GameIdentity};
use whitelist_link::store::{
    classify_insert, first_account, AccountStore, InsertReport, StoreError,
};

fn identity(id: &str, name: &str) -> GameIdentity {
    GameIdentity { canonical_id: id.to_string(), display_name: name.to_string() }
}

fn account(chat_id: u64, id: &str, name: &str) -> Account {
    Account { chat_id, game_identity: id.to_string(), game_display_name: name.to_string() }
}

#[test]
fn new_store_is_empty() {
    let store = AccountStore::new();
    assert_eq!(store.len(), 0);
    assert_eq!(store.lookup_by_chat_id(42), None);
}

#[test]
fn link_stores_the_account() {
    let mut store = AccountStore::new();
    assert_eq!(store.link(42, &identity("abc", "Steve")), Ok(()));
    assert_eq!(store.len(), 1);
    assert_eq!(store.lookup_by_chat_id(42), Some(account(42, "abc", "Steve")));
    assert_eq!(store.lookup_by_chat_id(43), None);
}

#[test]
fn second_link_for_a_chat_identity_is_refused_and_changes_nothing() {
    let mut store = AccountStore::new();
    assert_eq!(store.link(42, &identity("abc", "Steve")), Ok(()));
    let before = store.clone();
    assert_eq!(store.link(42, &identity("def", "Alex")), Err(StoreError::AlreadyLinkedChatId));
    assert_eq!(store, before);
    assert_eq!(store.link(42, &identity("abc", "Steve")), Err(StoreError::AlreadyLinkedChatId));
    assert_eq!(store, before);
    assert_eq!(store.lookup_by_chat_id(42), Some(account(42, "abc", "Steve")));
}

#[test]
fn second_link_for_a_game_identity_is_refused_and_changes_nothing() {
    let mut store = AccountStore::new();
    assert_eq!(store.link(42, &identity("abc", "Steve")), Ok(()));
    let before = store.clone();
    assert_eq!(
        store.link(43, &identity("abc", "Steve")),
        Err(StoreError::AlreadyLinkedGameIdentity)
    );
    assert_eq!(
        store.link(44, &identity("abc", "Renamed")),
        Err(StoreError::AlreadyLinkedGameIdentity)
    );
    assert_eq!(store, before);
    assert_eq!(store.lookup_by_chat_id(43), None);
    assert_eq!(store.len(), 1);
}

#[test]
fn same_display_name_under_another_identity_is_accepted() {
    let mut store = AccountStore::new();
    assert_eq!(store.link(1, &identity("abc", "Steve")), Ok(()));
    assert_eq!(store.link(2, &identity("abd", "Steve")), Ok(()));
    assert_eq!(store.len(), 2);
}

#[test]
fn no_two_accounts_share_a_chat_identity_or_a_game_identity() {
    let mut store = AccountStore::new();
    let ids = ["a", "b", "c", "a", "d", "b"];
    let mut accepted: Vec<(u64, &str)> = Vec::new();
    let mut chat_id: u64 = 0;
    while chat_id < 12 {
        let id = ids[(chat_id as usize * 5 + 1) % ids.len()];
        let key = chat_id % 5;
        if store.link(key, &identity(id, "n")).is_ok() {
            accepted.push((key, id));
        }
        chat_id += 1;
    }
    assert_eq!(store.len(), accepted.len());
    for (i, a) in accepted.iter().enumerate() {
        for b in accepted.iter().skip(i + 1) {
            assert_ne!(a.0, b.0);
            assert_ne!(a.1, b.1);
        }
        assert_eq!(store.lookup_by_chat_id(a.0), Some(account(a.0, a.1, "n")));
    }
}

#[test]
fn unlink_removes_the_account_and_says_so() {
    let mut store = AccountStore::new();
    assert_eq!(store.link(1, &identity("a", "A")), Ok(()));
    assert_eq!(store.link(2, &identity("b", "B")), Ok(()));
    assert_eq!(store.link(3, &identity("c", "C")), Ok(()));
    assert!(store.unlink(2));
    assert_eq!(store.len(), 2);
    assert_eq!(store.lookup_by_chat_id(2), None);
    assert_eq!(store.lookup_by_chat_id(1), Some(account(1, "a", "A")));
    assert_eq!(store.lookup_by_chat_id(3), Some(account(3, "c", "C")));
    assert!(!store.unlink(2));
    assert_eq!(store.len(), 2);
}

#[test]
fn unlink_then_relink_changes_the_mapping() {
    let mut store = AccountStore::new();
    assert_eq!(store.link(1, &identity("a", "A")), Ok(()));
    assert!(store.unlink(1));
    assert_eq!(store.link(1, &identity("b", "B")), Ok(()));
    assert_eq!(store.link(2, &identity("a", "A")), Ok(()));
    assert_eq!(store.lookup_by_chat_id(1), Some(account(1, "b", "B")));
    assert_eq!(store.lookup_by_chat_id(2), Some(account(2, "a", "A")));
}

#[test]
fn unlink_on_an_empty_store_removes_nothing() {
    let mut store = AccountStore::new();
    assert!(!store.unlink(7));
    assert_eq!(store, AccountStore::new());
}

#[test]
fn account_is_built_from_chat_identity_and_game_identity() {
    let built = Account::new(42, &identity("abc", "Steve"));
    assert_eq!(built, account(42, "abc", "Steve"));
    assert_eq!(built.clone(), built);
}

#[test]
fn one_row_written_is_a_stored_account() {
    assert_eq!(classify_insert(&InsertReport::Written(1), "discord_id", "minecraft_uuid"), Ok(()));
}

#[test]
fn another_number_of_rows_is_a_storage_error() {
    assert_eq!(
        classify_insert(&InsertReport::Written(0), "discord_id", "minecraft_uuid"),
        Err(StoreError::StorageError)
    );
    assert_eq!(
        classify_insert(&InsertReport::Written(2), "discord_id", "minecraft_uuid"),
        Err(StoreError::StorageError)
    );
}

#[test]
fn unique_violation_is_laid_to_the_column_it_names() {
    let on_chat = InsertReport::UniqueViolation(
        "Duplicate entry '42' for key 'discord_id'".to_string(),
    );
    let on_identity = InsertReport::UniqueViolation(
        "Duplicate entry 'abc' for key 'minecraft_uuid'".to_string(),
    );
    let on_both = InsertReport::UniqueViolation("minecraft_uuid and discord_id".to_string());
    let on_neither = InsertReport::UniqueViolation("Duplicate entry '1' for key 'PRIMARY'".to_string());
    assert_eq!(
        classify_insert(&on_chat, "discord_id", "minecraft_uuid"),
        Err(StoreError::AlreadyLinkedChatId)
    );
    assert_eq!(
        classify_insert(&on_identity, "discord_id", "minecraft_uuid"),
        Err(StoreError::AlreadyLinkedGameIdentity)
    );
    assert_eq!(
        classify_insert(&on_both, "discord_id", "minecraft_uuid"),
        Err(StoreError::AlreadyLinkedChatId)
    );
    assert_eq!(
        classify_insert(&on_neither, "discord_id", "minecraft_uuid"),
        Err(StoreError::StorageError)
    );
}

#[test]
fn other_storage_failure_is_a_storage_error() {
    assert_eq!(
        classify_insert(&InsertReport::Failed, "discord_id", "minecraft_uuid"),
        Err(StoreError::StorageError)
    );
}

#[test]
fn first_account_of_the_rows_found() {
    assert_eq!(first_account(&Vec::new()), None);
    assert_eq!(
        first_account(&vec![account(1, "a", "A"), account(1, "b", "B")]),
        Some(account(1, "a", "A"))
    );
}
