//! The ledger as a mathematical value, and what each operation makes of it.
use crate::ledger::{
    ledger_entries, ledger_intact, ledger_owner, ledger_sequence, view_entries, view_intact,
    view_owner, view_sequence, Ledger, LedgerView,
};
use crate::state::{EntryView, Priority, Record, Status};
use vstd::prelude::*;

verus! {

/// Everything the ledger keeps.
pub struct LedgerState {
    /// The administrator, once the ledger is instantiated.
    pub owner: Option<Seq<char>>,
    /// The identifier handed out last, once the ledger is instantiated.
    pub sequence: Option<u64>,
    /// What is stored, by identifier: a record, or `None` for something
    /// that cannot be read as one.
    pub entries: Map<u64, Option<Record>>,
    /// Whether storage holds nothing below the entries' key but entries.
    pub intact: bool,
}

impl<'a> View for Ledger<'a> {
    type V = LedgerState;

    open spec fn view(&self) -> LedgerState {
        LedgerState {
            owner: ledger_owner(*self),
            sequence: ledger_sequence(*self),
            entries: ledger_entries(*self),
            intact: ledger_intact(*self),
        }
    }
}

impl<'a> View for LedgerView<'a> {
    type V = LedgerState;

    open spec fn view(&self) -> LedgerState {
        LedgerState {
            owner: view_owner(*self),
            sequence: view_sequence(*self),
            entries: view_entries(*self),
            intact: view_intact(*self),
        }
    }
}

/// Whether `id` lies past the cursor `start`.  With no cursor every
/// identifier does.
pub open spec fn past(start: Option<u64>, id: u64) -> bool {
    match start {
        Some(s) => s < id,
        None => true,
    }
}

/// Whether `id` is the least identifier past `start` under which `entries`
/// holds something.
pub open spec fn first_past(entries: Map<u64, Option<Record>>, start: Option<u64>, id: u64) -> bool {
    &&& entries.dom().contains(id)
    &&& past(start, id)
    &&& forall|other: u64| entries.dom().contains(other) && past(start, other) ==> id <= other
}

/// The cursor with which a scan goes on after it has seen `seen`: the last
/// identifier seen, or `start` where nothing was seen yet.
pub open spec fn cursor_after(start: Option<u64>, seen: Seq<EntryView>) -> Option<u64> {
    if seen.len() == 0 {
        start
    } else {
        Some(seen.last().id)
    }
}

impl LedgerState {
    /// `sender` is the owner.
    pub open spec fn admits(self, sender: Seq<char>) -> bool {
        self.owner == Some(sender)
    }

    /// There is an owner, and `sender` is somebody else.
    pub open spec fn refuses(self, sender: Seq<char>) -> bool {
        self.owner is Some && self.owner != Some(sender)
    }

    /// Something is stored under `id`.
    pub open spec fn holds(self, id: u64) -> bool {
        self.entries.dom().contains(id)
    }

    /// The record stored under `id`, where there is one.
    pub open spec fn record(self, id: u64) -> Option<Record> {
        if self.holds(id) {
            self.entries[id]
        } else {
            None
        }
    }

    /// The entry stored under `id`, where there is a record and its codes
    /// name a status and a priority.
    pub open spec fn entry(self, id: u64) -> Option<EntryView> {
        match self.record(id) {
            Some(record) => EntryView::decode(id, record),
            None => None,
        }
    }

    /// `id` is the least identifier past `start` under which something is
    /// stored.
    pub open spec fn first_past(self, start: Option<u64>, id: u64) -> bool {
        first_past(self.entries, start, id)
    }

    /// Every record past `start` can be read as an entry, and nothing else
    /// lies among the records.
    pub open spec fn readable_past(self, start: Option<u64>) -> bool {
        &&& self.intact
        &&& forall|id: u64| self.holds(id) && past(start, id) ==> self.entry(id) is Some
    }

    /// The identifier that the next entry gets: one more than the last.
    pub open spec fn next_id(self) -> Option<u64> {
        match self.sequence {
            Some(last) => if last < u64::MAX {
                Some((last + 1) as u64)
            } else {
                None
            },
            None => None,
        }
    }

    /// Every identifier in use was handed out by the counter.
    pub open spec fn well_formed(self) -> bool {
        &&& self.sequence is Some
        &&& forall|id: u64| self.holds(id) ==> 1 <= id <= self.sequence.unwrap()
    }

    /// The same ledger with the counter at `sequence`.
    pub open spec fn with_sequence(self, sequence: u64) -> LedgerState {
        LedgerState { sequence: Some(sequence), ..self }
    }

    /// The same ledger with `entry` stored under its identifier.
    pub open spec fn with_entry(self, entry: EntryView) -> LedgerState {
        LedgerState { entries: self.entries.insert(entry.id, Some(entry.record())), ..self }
    }

    /// The ledger after `instantiate`: `owner` administers it and no
    /// identifier has been handed out.
    pub open spec fn instantiated(self, owner: Seq<char>) -> LedgerState {
        LedgerState { owner: Some(owner), sequence: Some(0), ..self }
    }

    /// The ledger after a successful `create_entry`.
    pub open spec fn created(self, description: Seq<char>, priority: Option<Priority>) -> LedgerState
        recommends
            self.next_id() is Some,
    {
        let id = self.next_id().unwrap();
        self.with_sequence(id).with_entry(EntryView::fresh(id, description, priority))
    }

    /// The ledger after a successful `update_entry`.
    pub open spec fn updated(
        self,
        id: u64,
        description: Option<Seq<char>>,
        status: Option<Status>,
        priority: Option<Priority>,
    ) -> LedgerState
        recommends
            self.entry(id) is Some,
    {
        self.with_entry(self.entry(id).unwrap().merged(description, status, priority))
    }

    /// The ledger after a successful `delete_entry`.
    pub open spec fn deleted(self, id: u64) -> LedgerState {
        LedgerState { entries: self.entries.remove(id), ..self }
    }

    /// Whether `page` is the page that starts past `start` and holds at most
    /// `limit` entries: stored entries past the cursor, in ascending order of
    /// their identifiers, none skipped, and cut short only where the page is
    /// full.
    pub open spec fn page(self, start: Option<u64>, limit: nat, page: Seq<EntryView>) -> bool {
        &&& page.len() <= limit
        &&& forall|i: int|
            0 <= i < page.len() ==> past(start, #[trigger] page[i].id) && self.entry(page[i].id)
                == Some(page[i])
        &&& forall|i: int, j: int| 0 <= i < j < page.len() ==> page[i].id < page[j].id
        &&& forall|id: u64|
            self.holds(id) && past(start, id) ==> {
                ||| exists|i: int| 0 <= i < page.len() && #[trigger] page[i].id == id
                ||| page.len() == limit && (limit > 0 ==> page[limit - 1].id < id)
            }
    }
}

} // verus!
