//! What callers send to the ledger and what they get back.
use crate::state::{views, Entry, EntryView, Priority, Status};
use vstd::prelude::*;

verus! {

/// Sets the ledger up.  Without an `owner`, or with one that the chain does
/// not accept as an address, the sender becomes the owner.
#[derive(Clone, Debug, PartialEq, Eq)]
pub struct InstantiateMsg {
    pub owner: Option<String>,
}

/// A change to the ledger.  Only the owner may ask for one.
#[derive(Clone, Debug, PartialEq, Eq)]
#[allow(inconsistent_fields)]
pub enum ExecuteMsg {
    NewEntry { description: String, priority: Option<Priority> },
    UpdateEntry {
        id: u64,
        description: Option<String>,
        status: Option<Status>,
        priority: Option<Priority>,
    },
    DeleteEntry { id: u64 },
}

/// A question to the ledger.  Anybody may ask.
#[derive(Clone, Debug, PartialEq, Eq)]
pub enum QueryMsg {
    QueryEntry { id: u64 },
    QueryList { start_after: Option<u64>, limit: Option<u32> },
}

/// What a change did, and to which entry.
#[derive(Clone, Copy, Debug, PartialEq, Eq)]
pub enum ExecuteResponse {
    Created { id: u64 },
    Updated { id: u64 },
    Deleted { id: u64 },
}

impl ExecuteResponse {
    /// The identifier of the entry that was created, updated or deleted.
    pub open spec fn id(self) -> u64 {
        match self {
            ExecuteResponse::Created { id } => id,
            ExecuteResponse::Updated { id } => id,
            ExecuteResponse::Deleted { id } => id,
        }
    }
}

/// One entry, as the answer to `QueryEntry`.
#[derive(Clone, Debug, PartialEq, Eq)]
pub struct EntryResponse {
    pub id: u64,
    pub description: String,
    pub status: Status,
    pub priority: Priority,
}

impl View for EntryResponse {
    type V = EntryView;

    open spec fn view(&self) -> EntryView {
        EntryView {
            id: self.id,
            description: self.description@,
            status: self.status,
            priority: self.priority,
        }
    }
}

/// One page of entries, as the answer to `QueryList`.
#[derive(Clone, Debug, PartialEq, Eq)]
pub struct ListResponse {
    pub entries: Vec<Entry>,
}

impl View for ListResponse {
    type V = Seq<EntryView>;

    open spec fn view(&self) -> Seq<EntryView> {
        views(self.entries@)
    }
}

/// The answer to a `QueryMsg`.
#[derive(Clone, Debug, PartialEq, Eq)]
pub enum QueryResponse {
    Entry(EntryResponse),
    List(ListResponse),
}

} // verus!
