//! What is expected of the store that keeps the accounts.
//!
//! The store itself belongs to the program around this library. These are the
//! terms in which the laws speak of a store that works.

use crate::account::{AuthenticationInfoView, HubInfo, HubInfoView};
use crate::hub_manager::{is_lookup, LookupStep};
use vstd::prelude::*;

verus! {

/// The accounts in a store, by their identity.
pub type Rows = Map<u32, HubInfoView>;

/// Whether an account belongs to this user.
pub open spec fn belongs_to(info: HubInfoView, workspace: Seq<char>, nick: Seq<char>) -> bool {
    info.workspace == workspace && info.nick == nick
}

/// Every account is filed under its identity, and no user has two.
pub open spec fn is_store(rows: Rows) -> bool {
    &&& forall|id: u32| #[trigger] rows.contains_key(id) ==> rows[id].id == id
    &&& forall|id1: u32, id2: u32|
        #![trigger rows.contains_key(id1), rows.contains_key(id2)]
        rows.contains_key(id1) && rows.contains_key(id2) && belongs_to(
            rows[id1],
            rows[id2].workspace,
            rows[id2].nick,
        ) ==> id1 == id2
}

/// What looking up a user gives.
pub open spec fn is_found(
    rows: Rows,
    workspace: Seq<char>,
    nick: Seq<char>,
    found: Option<HubInfoView>,
) -> bool {
    match found {
        Some(info) => {
            &&& rows.contains_key(info.id)
            &&& rows[info.id] == info
            &&& belongs_to(info, workspace, nick)
        },
        None => forall|id: u32| #[trigger]
            rows.contains_key(id) ==> !belongs_to(rows[id], workspace, nick),
    }
}

/// What the store holds of an account that was looked up.
pub open spec fn found_view(found: Option<HubInfo>) -> Option<HubInfoView> {
    match found {
        Some(info) => Some(info@),
        None => None,
    }
}

/// The store with an account under an identity of its own.
pub open spec fn with_account(rows: Rows, id: u32, info: HubInfoView) -> Rows {
    rows.insert(id, HubInfoView { id, ..info })
}

/// What storing the account of a new user makes of a store, which picks the
/// identity.
pub open spec fn is_inserted(rows: Rows, info: HubInfoView, after: Rows) -> bool {
    &&& is_found(rows, info.workspace, info.nick, None)
    &&& exists|id: u32| !rows.contains_key(id) && after == #[trigger] with_account(rows, id, info)
}

/// The store once the settings of an account were brought up to date.
pub open spec fn updated(rows: Rows, info: HubInfoView) -> Rows {
    if rows.contains_key(info.id) {
        rows.insert(info.id, HubInfoView { settings: info.settings, ..rows[info.id] })
    } else {
        rows
    }
}

/// Something that was asked of a store.
pub enum StoreChange {
    Insert(HubInfoView),
    Update(HubInfoView),
}

/// What a change makes of a store.
pub open spec fn is_changed(rows: Rows, change: StoreChange, after: Rows) -> bool {
    match change {
        StoreChange::Insert(info) => is_inserted(rows, info, after),
        StoreChange::Update(info) => after == updated(rows, info),
    }
}

/// The states of a store, from one change to the next.
pub open spec fn is_store_history(rows: Seq<Rows>, changes: Seq<StoreChange>) -> bool {
    &&& rows.len() == changes.len() + 1
    &&& is_store(rows[0])
    &&& forall|i: int|
        0 <= i < changes.len() ==> is_changed(rows[i], #[trigger] changes[i], rows[i + 1])
}

/// What it means to find the account of a user or else to make one: a new
/// account is stored and looked up.
pub open spec fn is_found_or_created(
    rows: Rows,
    auth: AuthenticationInfoView,
    info: HubInfoView,
    after: Rows,
) -> bool {
    ||| is_found(rows, auth.workspace, auth.nick, Some(info)) && after == rows
    ||| exists|inserted: HubInfo|
        {
            &&& #[trigger] is_lookup(auth, None, LookupStep::Insert(inserted))
            &&& is_inserted(rows, inserted@, after)
            &&& is_found(after, auth.workspace, auth.nick, Some(info))
        }
}

} // verus!
