//! The account table: at most one account for a chat identity, at most one
//! for a game identity.
//!
//! The table is specified as a map from chat identities to accounts.
//! [`AccountStore`] keeps such a table in memory; a durable storage that
//! enforces the two uniqueness rules itself has its answers read by
//! [`classify_insert`] and [`first_account`].

use crate::model::{account_of, Account, AccountView, GameIdentity, GameIdentityView};
use crate::text::{contains, contains_text};
use vstd::prelude::*;

verus! {

/// Why an account could not be stored.
#[derive(Debug, Clone, Copy, PartialEq, Eq, Structural)]
pub enum StoreError {
    /// The chat identity has an account already.
    AlreadyLinkedChatId,
    /// Another chat identity owns the game identity.
    AlreadyLinkedGameIdentity,
    /// The storage failed for a reason of its own.
    StorageError,
}

/// Some account in `table` records the game identity `canonical_id`.
pub open spec fn identity_taken(table: Map<u64, AccountView>, canonical_id: Seq<char>) -> bool {
    exists|chat_id: u64| #[trigger]
        table.dom().contains(chat_id) && table[chat_id].game_identity == canonical_id
}

/// A table is consistent when each account is filed under its own chat
/// identity and no two accounts record the same game identity. Being a map,
/// it holds at most one account for a chat identity.
pub open spec fn consistent(table: Map<u64, AccountView>) -> bool {
    &&& forall|chat_id: u64| #[trigger]
        table.dom().contains(chat_id) ==> table[chat_id].chat_id == chat_id
    &&& forall|a: u64, b: u64|
        #![trigger table.dom().contains(a), table.dom().contains(b)]
        table.dom().contains(a) && table.dom().contains(b) && a != b ==> table[a].game_identity
            != table[b].game_identity
}

/// Whether `chat_id` can be linked to `identity` in `table`, and if not,
/// why. A chat identity that has an account is refused first.
pub open spec fn link_verdict(
    table: Map<u64, AccountView>,
    chat_id: u64,
    identity: GameIdentityView,
) -> Result<(), StoreError> {
    if table.dom().contains(chat_id) {
        Err(StoreError::AlreadyLinkedChatId)
    } else if identity_taken(table, identity.canonical_id) {
        Err(StoreError::AlreadyLinkedGameIdentity)
    } else {
        Ok(())
    }
}

/// The table after an attempt to link `chat_id` to `identity`: with the new
/// account when the link is accepted, unchanged when it is refused.
pub open spec fn after_link(
    table: Map<u64, AccountView>,
    chat_id: u64,
    identity: GameIdentityView,
) -> Map<u64, AccountView> {
    if link_verdict(table, chat_id, identity) is Ok {
        table.insert(chat_id, account_of(chat_id, identity))
    } else {
        table
    }
}

/// The table after a run of link attempts, made in order.
pub open spec fn after_links(
    table: Map<u64, AccountView>,
    attempts: Seq<(u64, GameIdentityView)>,
) -> Map<u64, AccountView>
    decreases attempts.len(),
{
    if attempts.len() == 0 {
        table
    } else {
        let (chat_id, identity) = attempts.last();
        after_link(after_links(table, attempts.drop_last()), chat_id, identity)
    }
}

/// A link attempt leaves a consistent table consistent.
pub proof fn link_keeps_consistency(
    table: Map<u64, AccountView>,
    chat_id: u64,
    identity: GameIdentityView,
)
    requires
        consistent(table),
    ensures
        consistent(after_link(table, chat_id, identity)),
{
}

/// Whatever link attempts are made, in whatever order, no two accounts ever
/// share a chat identity or a game identity.
pub proof fn links_keep_consistency(
    table: Map<u64, AccountView>,
    attempts: Seq<(u64, GameIdentityView)>,
)
    requires
        consistent(table),
    ensures
        consistent(after_links(table, attempts)),
    decreases attempts.len(),
{
    if attempts.len() > 0 {
        links_keep_consistency(table, attempts.drop_last());
        let (chat_id, identity) = attempts.last();
        link_keeps_consistency(after_links(table, attempts.drop_last()), chat_id, identity);
    }
}

/// Once a link is accepted, a second attempt for the same chat identity is
/// refused as `AlreadyLinkedChatId`, one by another chat identity for the
/// same game identity as `AlreadyLinkedGameIdentity`, and either leaves the
/// table as it was.
pub proof fn second_link_is_refused(
    table: Map<u64, AccountView>,
    chat_id: u64,
    identity: GameIdentityView,
    other_chat_id: u64,
    other_identity: GameIdentityView,
)
    requires
        link_verdict(table, chat_id, identity) is Ok,
    ensures
        ({
            let linked = after_link(table, chat_id, identity);
            &&& link_verdict(linked, chat_id, other_identity) == Err::<(), StoreError>(
                StoreError::AlreadyLinkedChatId,
            )
            &&& after_link(linked, chat_id, other_identity) == linked
            &&& !linked.dom().contains(other_chat_id) && other_identity.canonical_id
                == identity.canonical_id ==> link_verdict(linked, other_chat_id, other_identity)
                == Err::<(), StoreError>(StoreError::AlreadyLinkedGameIdentity)
            &&& other_identity.canonical_id == identity.canonical_id ==> after_link(
                linked,
                other_chat_id,
                other_identity,
            ) == linked
        }),
{
}

/// The table that holds the accounts `rows`, each filed under its chat
/// identity.
spec fn table_of(rows: Seq<AccountView>) -> Map<u64, AccountView>
    decreases rows.len(),
{
    if rows.len() == 0 {
        Map::empty()
    } else {
        table_of(rows.drop_last()).insert(rows.last().chat_id, rows.last())
    }
}

/// No two of `rows` share a chat identity or a game identity.
spec fn distinct_rows(rows: Seq<AccountView>) -> bool {
    forall|i: int, j: int|
        0 <= i < j < rows.len() ==> rows[i].chat_id != rows[j].chat_id && rows[i].game_identity
            != rows[j].game_identity
}

proof fn table_holds_rows(rows: Seq<AccountView>)
    requires
        distinct_rows(rows),
    ensures
        forall|chat_id: u64| #[trigger]
            table_of(rows).dom().contains(chat_id) <==> exists|i: int|
                0 <= i < rows.len() && #[trigger] rows[i].chat_id == chat_id,
        forall|i: int|
            0 <= i < rows.len() ==> table_of(rows).dom().contains(#[trigger] rows[i].chat_id)
                && table_of(rows)[rows[i].chat_id] == rows[i],
    decreases rows.len(),
{
    if rows.len() > 0 {
        let front = rows.drop_last();
        let end = rows.last();
        table_holds_rows(front);
        assert forall|chat_id: u64| #[trigger]
            table_of(rows).dom().contains(chat_id) implies exists|i: int|
            0 <= i < rows.len() && #[trigger] rows[i].chat_id == chat_id by {
            if chat_id != end.chat_id {
                assert(table_of(front).dom().contains(chat_id));
            }
        }
        assert forall|i: int| 0 <= i < rows.len() implies table_of(rows).dom().contains(
            #[trigger] rows[i].chat_id,
        ) && table_of(rows)[rows[i].chat_id] == rows[i] by {
            if i < rows.len() - 1 {
                assert(table_of(front).dom().contains(front[i].chat_id));
            }
        }
    }
}

proof fn table_is_consistent(rows: Seq<AccountView>)
    requires
        distinct_rows(rows),
    ensures
        forall|a: u64, b: u64|
            #![trigger table_of(rows).dom().contains(a), table_of(rows).dom().contains(b)]
            table_of(rows).dom().contains(a) && table_of(rows).dom().contains(b) && a != b
                ==> table_of(rows)[a].game_identity != table_of(rows)[b].game_identity,
        forall|chat_id: u64| #[trigger]
            table_of(rows).dom().contains(chat_id) ==> exists|i: int|
                0 <= i < rows.len() && rows[i].chat_id == chat_id && table_of(rows)[chat_id]
                    == #[trigger] rows[i],
{
    table_holds_rows(rows);
}

proof fn table_without_row(rows: Seq<AccountView>, at: int)
    requires
        distinct_rows(rows),
        0 <= at < rows.len(),
    ensures
        distinct_rows(rows.remove(at)),
        table_of(rows.remove(at)) == table_of(rows).remove(rows[at].chat_id),
{
    let rest = rows.remove(at);
    table_holds_rows(rows);
    table_holds_rows(rest);
    let left = table_of(rest);
    let right = table_of(rows).remove(rows[at].chat_id);
    assert forall|chat_id: u64| left.dom().contains(chat_id) <==> right.dom().contains(chat_id) by {
        if right.dom().contains(chat_id) {
            let i0 = choose|i: int| 0 <= i < rows.len() && #[trigger] rows[i].chat_id == chat_id;
            let i = if i0 < at { i0 } else { i0 - 1 };
            assert(rest[i].chat_id == chat_id);
        }
    }
}

/// An account table kept in memory.
#[derive(Debug, PartialEq, Eq)]
pub struct AccountStore {
    rows: Vec<Account>,
}

/// The views of `rows`, in order.
spec fn views_of(rows: Seq<Account>) -> Seq<AccountView> {
    rows.map_values(|a: Account| a@)
}

impl View for AccountStore {
    type V = Map<u64, AccountView>;

    closed spec fn view(&self) -> Map<u64, AccountView> {
        table_of(views_of(self.rows@))
    }
}

impl AccountStore {
    #[verifier::type_invariant]
    spec fn well_formed(&self) -> bool {
        distinct_rows(views_of(self.rows@))
    }

    /// A table without accounts.
    pub fn new() -> (r: AccountStore)
        ensures
            r@ == Map::<u64, AccountView>::empty(),
            consistent(r@),
    {
        AccountStore { rows: Vec::new() }
    }

    fn position_of(&self, chat_id: u64) -> (r: Option<usize>)
        ensures
            match r {
                Some(at) => at < self.rows@.len() && self.rows@[at as int].chat_id == chat_id,
                None => forall|i: int| 0 <= i < self.rows@.len() ==> self.rows@[i].chat_id != chat_id,
            },
    {
        let mut at: usize = 0;
        while at < self.rows.len()
            invariant
                at <= self.rows@.len(),
                forall|i: int| 0 <= i < at ==> self.rows@[i].chat_id != chat_id,
            decreases self.rows@.len() - at,
        {
            if self.rows[at].chat_id == chat_id {
                return Some(at);
            }
            at = at + 1;
        }
        None
    }

    fn holds_identity(&self, canonical_id: &String) -> (r: bool)
        ensures
            r == exists|i: int|
                0 <= i < self.rows@.len() && (#[trigger] self.rows@[i]).game_identity@
                    == canonical_id@,
    {
        let mut at: usize = 0;
        while at < self.rows.len()
            invariant
                at <= self.rows@.len(),
                forall|i: int| 0 <= i < at ==> (#[trigger] self.rows@[i]).game_identity@ != canonical_id@,
            decreases self.rows@.len() - at,
        {
            if self.rows[at].game_identity == *canonical_id {
                return true;
            }
            at = at + 1;
        }
        false
    }

    /// The account of `chat_id`, if it has one.
    pub fn lookup_by_chat_id(&self, chat_id: u64) -> (r: Option<Account>)
        ensures
            consistent(self@),
            match r {
                Some(account) => self@.dom().contains(chat_id) && account@ == self@[chat_id],
                None => !self@.dom().contains(chat_id),
            },
    {
        proof {
            use_type_invariant(self);
            let rows = views_of(self.rows@);
            table_holds_rows(rows);
            table_is_consistent(rows);
        }
        match self.position_of(chat_id) {
            Some(at) => {
                proof {
                    let rows = views_of(self.rows@);
                    assert(rows[at as int].chat_id == chat_id);
                }
                Some(self.rows[at].clone())
            },
            None => None,
        }
    }

    /// Links `chat_id` to `identity`, unless the chat identity has an
    /// account or another chat identity owns the game identity; a refused
    /// link leaves the table as it was.
    pub fn link(&mut self, chat_id: u64, identity: &GameIdentity) -> (r: Result<(), StoreError>)
        ensures
            r == link_verdict(old(self)@, chat_id, identity@),
            final(self)@ == after_link(old(self)@, chat_id, identity@),
            consistent(final(self)@),
    {
        let ghost before = views_of(self.rows@);
        proof {
            use_type_invariant(&*self);
            table_holds_rows(before);
            table_is_consistent(before);
        }
        if let Some(at) = self.position_of(chat_id) {
            proof {
                assert(table_of(before).dom().contains(before[at as int].chat_id));
            }
            return Err(StoreError::AlreadyLinkedChatId);
        }
        if self.holds_identity(&identity.canonical_id) {
            proof {
                let i = choose|i: int|
                    0 <= i < self.rows@.len() && (#[trigger] self.rows@[i]).game_identity@
                        == identity.canonical_id@;
                assert(table_of(before).dom().contains(before[i].chat_id));
            }
            return Err(StoreError::AlreadyLinkedGameIdentity);
        }
        let mut rows: Vec<Account> = Vec::new();
        core::mem::swap(&mut rows, &mut self.rows);
        rows.push(Account::new(chat_id, identity));
        proof {
            let after = views_of(rows@);
            assert(after =~= before.push(account_of(chat_id, identity@)));
            assert(after.drop_last() =~= before);
            table_holds_rows(after);
            table_is_consistent(after);
        }
        self.rows = rows;
        Ok(())
    }

    /// Removes the account of `chat_id`, and says whether there was one.
    pub fn unlink(&mut self, chat_id: u64) -> (r: bool)
        ensures
            r == old(self)@.dom().contains(chat_id),
            final(self)@ == old(self)@.remove(chat_id),
            consistent(final(self)@),
    {
        let ghost before = views_of(self.rows@);
        proof {
            use_type_invariant(&*self);
            table_holds_rows(before);
            table_is_consistent(before);
        }
        match self.position_of(chat_id) {
            Some(at) => {
                proof {
                    table_without_row(before, at as int);
                }
                let mut rows: Vec<Account> = Vec::new();
                core::mem::swap(&mut rows, &mut self.rows);
                let _ = rows.remove(at);
                proof {
                    let after = views_of(rows@);
                    assert(after =~= before.remove(at as int));
                    table_holds_rows(after);
                    table_is_consistent(after);
                }
                self.rows = rows;
                true
            },
            None => {
                proof {
                }
                false
            },
        }
    }

    /// The number of accounts.
    pub fn len(&self) -> (r: usize)
        ensures
            r == self@.dom().len(),
    {
        proof {
            use_type_invariant(self);
            table_size(views_of(self.rows@));
        }
        self.rows.len()
    }
}

impl Clone for AccountStore {
    fn clone(&self) -> (r: Self)
        ensures
            r@ == self@,
    {
        proof {
            use_type_invariant(self);
        }
        let mut rows: Vec<Account> = Vec::new();
        let mut at: usize = 0;
        while at < self.rows.len()
            invariant
                at <= self.rows@.len(),
                rows@.len() == at,
                forall|i: int| 0 <= i < at ==> (#[trigger] rows@[i])@ == self.rows@[i]@,
            decreases self.rows@.len() - at,
        {
            rows.push(self.rows[at].clone());
            at = at + 1;
        }
        assert(views_of(rows@) =~= views_of(self.rows@));
        AccountStore { rows }
    }
}

proof fn table_size(rows: Seq<AccountView>)
    requires
        distinct_rows(rows),
    ensures
        table_of(rows).dom().finite(),
        table_of(rows).dom().len() == rows.len(),
    decreases rows.len(),
{
    if rows.len() > 0 {
        let front = rows.drop_last();
        table_size(front);
        table_holds_rows(front);
        if table_of(front).dom().contains(rows.last().chat_id) {
            let i = choose|i: int| 0 <= i < front.len() && #[trigger] front[i].chat_id == rows.last().chat_id;
        }
    }
}

/// How a durable storage answered the insertion of one account.
#[derive(Debug, PartialEq, Eq)]
pub enum InsertReport {
    /// The insertion went through; the number of rows written.
    Written(usize),
    /// A uniqueness rule of the table refused the row; the storage's message.
    UniqueViolation(String),
    /// The storage failed in another way.
    Failed,
}

/// What an [`InsertReport`] holds.
pub ghost enum InsertReportView {
    Written(usize),
    UniqueViolation(Seq<char>),
    Failed,
}

impl View for InsertReport {
    type V = InsertReportView;

    open spec fn view(&self) -> InsertReportView {
        match *self {
            InsertReport::Written(rows) => InsertReportView::Written(rows),
            InsertReport::UniqueViolation(message) => InsertReportView::UniqueViolation(message@),
            InsertReport::Failed => InsertReportView::Failed,
        }
    }
}

/// What an insertion report means for the link. Exactly one row written is
/// a success. A uniqueness violation is laid to the chat identity when its
/// message names the column `chat_column`, else to the game identity when
/// it names `identity_column`. Everything else is a failure of the storage.
pub open spec fn insert_verdict(
    report: InsertReportView,
    chat_column: Seq<char>,
    identity_column: Seq<char>,
) -> Result<(), StoreError> {
    match report {
        InsertReportView::Written(rows) => if rows == 1 {
            Ok(())
        } else {
            Err(StoreError::StorageError)
        },
        InsertReportView::UniqueViolation(message) => if contains_text(message, chat_column) {
            Err(StoreError::AlreadyLinkedChatId)
        } else if contains_text(message, identity_column) {
            Err(StoreError::AlreadyLinkedGameIdentity)
        } else {
            Err(StoreError::StorageError)
        },
        InsertReportView::Failed => Err(StoreError::StorageError),
    }
}

/// Reads the answer of a durable storage to the insertion of an account.
pub fn classify_insert(report: &InsertReport, chat_column: &str, identity_column: &str) -> (r:
    Result<(), StoreError>)
    ensures
        r == insert_verdict(report@, chat_column@, identity_column@),
{
    match report {
        InsertReport::Written(rows) => if *rows == 1 {
            Ok(())
        } else {
            Err(StoreError::StorageError)
        },
        InsertReport::UniqueViolation(message) => if contains(message.as_str(), chat_column) {
            Err(StoreError::AlreadyLinkedChatId)
        } else if contains(message.as_str(), identity_column) {
            Err(StoreError::AlreadyLinkedGameIdentity)
        } else {
            Err(StoreError::StorageError)
        },
        InsertReport::Failed => Err(StoreError::StorageError),
    }
}

/// The account among the rows that a lookup by chat identity brought back:
/// the first, or none when there is no row.
pub fn first_account(rows: &Vec<Account>) -> (r: Option<Account>)
    ensures
        match r {
            Some(account) => rows@.len() > 0 && account@ == rows@[0]@,
            None => rows@.len() == 0,
        },
{
    if rows.len() == 0 {
        None
    } else {
        Some(rows[0].clone())
    }
}

} // verus!
