//! The records that the workflows pass around, each with its mathematical view.

use vstd::prelude::*;

verus! {

/// A game account as the identity service knows it.
#[derive(Debug, PartialEq, Eq)]
pub struct GameIdentity {
    /// The stable identifier that the service assigned.
    pub canonical_id: String,
    /// The name shown in the game, which its owner may change.
    pub display_name: String,
}

/// What a [`GameIdentity`] holds, as sequences of characters.
pub ghost struct GameIdentityView {
    pub canonical_id: Seq<char>,
    pub display_name: Seq<char>,
}

impl View for GameIdentity {
    type V = GameIdentityView;

    open spec fn view(&self) -> GameIdentityView {
        GameIdentityView { canonical_id: self.canonical_id@, display_name: self.display_name@ }
    }
}

impl Clone for GameIdentity {
    fn clone(&self) -> (r: Self)
        ensures
            r@ == self@,
    {
        GameIdentity {
            canonical_id: self.canonical_id.clone(),
            display_name: self.display_name.clone(),
        }
    }
}

/// The link between one chat identity and one game identity.
#[derive(Debug, PartialEq, Eq)]
pub struct Account {
    /// The chat identity.
    pub chat_id: u64,
    /// The canonical identifier of the game identity.
    pub game_identity: String,
    /// The display name that the game identity had when it was linked.
    pub game_display_name: String,
}

/// What an [`Account`] holds.
pub ghost struct AccountView {
    pub chat_id: u64,
    pub game_identity: Seq<char>,
    pub game_display_name: Seq<char>,
}

impl View for Account {
    type V = AccountView;

    open spec fn view(&self) -> AccountView {
        AccountView {
            chat_id: self.chat_id,
            game_identity: self.game_identity@,
            game_display_name: self.game_display_name@,
        }
    }
}

impl Clone for Account {
    fn clone(&self) -> (r: Self)
        ensures
            r@ == self@,
    {
        Account {
            chat_id: self.chat_id,
            game_identity: self.game_identity.clone(),
            game_display_name: self.game_display_name.clone(),
        }
    }
}

/// The account that links `chat_id` to `identity`.
pub open spec fn account_of(chat_id: u64, identity: GameIdentityView) -> AccountView {
    AccountView {
        chat_id,
        game_identity: identity.canonical_id,
        game_display_name: identity.display_name,
    }
}

impl Account {
    /// The account that links `chat_id` to `identity`.
    pub fn new(chat_id: u64, identity: &GameIdentity) -> (r: Account)
        ensures
            r@ == account_of(chat_id, identity@),
    {
        Account {
            chat_id,
            game_identity: identity.canonical_id.clone(),
            game_display_name: identity.display_name.clone(),
        }
    }
}

/// One entry of the timeline of display names of a game identity.
#[derive(Debug, PartialEq, Eq)]
pub struct DisplayNameHistoryEntry {
    /// The display name taken at that point.
    pub display_name: String,
    /// When the name was taken; absent for the first name of an identity.
    pub changed_at: Option<u64>,
}

/// What a [`DisplayNameHistoryEntry`] holds.
pub ghost struct DisplayNameHistoryEntryView {
    pub display_name: Seq<char>,
    pub changed_at: Option<u64>,
}

impl View for DisplayNameHistoryEntry {
    type V = DisplayNameHistoryEntryView;

    open spec fn view(&self) -> DisplayNameHistoryEntryView {
        DisplayNameHistoryEntryView {
            display_name: self.display_name@,
            changed_at: self.changed_at,
        }
    }
}

impl Clone for DisplayNameHistoryEntry {
    fn clone(&self) -> (r: Self)
        ensures
            r@ == self@,
    {
        DisplayNameHistoryEntry {
            display_name: self.display_name.clone(),
            changed_at: self.changed_at,
        }
    }
}

/// The views of a timeline's entries, oldest first.
pub open spec fn history_view(history: Seq<DisplayNameHistoryEntry>) -> Seq<
    DisplayNameHistoryEntryView,
> {
    history.map_values(|e: DisplayNameHistoryEntry| e@)
}

/// One remote server and the secret that opens a command session on it.
#[derive(Debug, PartialEq, Eq)]
pub struct ServerTarget {
    /// Host and service number, joined by a colon.
    pub address: String,
    /// The secret shared with the server.
    pub shared_secret: String,
}

/// What a [`ServerTarget`] holds.
pub ghost struct ServerTargetView {
    pub address: Seq<char>,
    pub shared_secret: Seq<char>,
}

impl View for ServerTarget {
    type V = ServerTargetView;

    open spec fn view(&self) -> ServerTargetView {
        ServerTargetView { address: self.address@, shared_secret: self.shared_secret@ }
    }
}

impl Clone for ServerTarget {
    fn clone(&self) -> (r: Self)
        ensures
            r@ == self@,
    {
        ServerTarget {
            address: self.address.clone(),
            shared_secret: self.shared_secret.clone(),
        }
    }
}

} // verus!
