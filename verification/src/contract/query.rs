//! The questions that anybody may ask.
use crate::error::ContractError;
use crate::ledger::{load_entry, next_entry_after, LedgerView};
use crate::model::{cursor_after, first_past, past, LedgerState};
use crate::msg::{EntryResponse, ListResponse};
use crate::state::{views, Entry, EntryView};
use vstd::prelude::*;

verus! {

/// The longest page that is ever returned.
pub const MAX_LIMIT: u32 = 30;

/// The length of a page where none is asked for.
pub const DEFAULT_LIMIT: u32 = 10;

/// The length of page that a request gets: what it asks for, or
/// `DEFAULT_LIMIT`, but never more than `MAX_LIMIT`.
pub open spec fn effective_limit(limit: Option<u32>) -> nat {
    let asked = match limit {
        Some(n) => n,
        None => DEFAULT_LIMIT,
    };
    if asked <= MAX_LIMIT {
        asked as nat
    } else {
        MAX_LIMIT as nat
    }
}

/// Computes `effective_limit`.
pub fn page_length(limit: Option<u32>) -> (length: usize)
    ensures
        length == effective_limit(limit),
        length <= MAX_LIMIT,
{
    let asked = match limit {
        Some(n) => n,
        None => DEFAULT_LIMIT,
    };
    if asked <= MAX_LIMIT {
        asked as usize
    } else {
        MAX_LIMIT as usize
    }
}

/// What `query_entry` answers.
///
/// The answer is the entry stored under `id` whenever there is one.  It is
/// `NotFound` exactly when nothing is stored there, `Std` exactly when what
/// is stored there is no record, and `Corrupt` exactly when the record names
/// no status or no priority.
pub open spec fn query_entry_spec(
    ledger: LedgerState,
    id: u64,
    found: Result<EntryResponse, ContractError>,
) -> bool {
    match found {
        Ok(entry) => ledger.entry(id) == Some(entry@),
        Err(ContractError::NotFound) => !ledger.holds(id),
        Err(ContractError::Std(_)) => ledger.holds(id) && ledger.record(id) is None,
        Err(ContractError::Corrupt) => ledger.record(id) is Some && ledger.entry(id) is None,
        Err(_) => false,
    }
}

/// Looks up the entry stored under `id`.
pub fn query_entry(view: &LedgerView, id: u64) -> (found: Result<EntryResponse, ContractError>)
    ensures
        query_entry_spec(view@, id, found),
{
    let record = match load_entry(view, id) {
        Ok(Some(record)) => record,
        Ok(None) => {
            return Err(ContractError::NotFound);
        },
        Err(cause) => {
            return Err(ContractError::Std(cause));
        },
    };
    match Entry::from_record(id, record) {
        Some(entry) => Ok(
            EntryResponse {
                id: entry.id,
                description: entry.description,
                status: entry.status,
                priority: entry.priority,
            },
        ),
        None => Err(ContractError::Corrupt),
    }
}

/// What a scan makes of the item that storage gave it: the error that
/// storage gave, nothing where nothing was left, the entry that the record
/// stands for, or `Corrupt` where it stands for none.
pub open spec fn scanned_spec(
    found: Result<Option<(u64, (String, u8, u8))>, cosmwasm_std::StdError>,
    step: Result<Option<Entry>, ContractError>,
) -> bool {
    match found {
        Err(cause) => step == Err::<Option<Entry>, ContractError>(ContractError::Std(cause)),
        Ok(None) => step == Ok::<Option<Entry>, ContractError>(None),
        Ok(Some(item)) => match EntryView::decode(item.0, item.1@) {
            Some(entry) => step matches Ok(Some(read)) && read@ == entry,
            None => step == Err::<Option<Entry>, ContractError>(ContractError::Corrupt),
        },
    }
}

/// Decides how a scan goes on once storage has answered.
pub fn scanned(
    found: Result<Option<(u64, (String, u8, u8))>, cosmwasm_std::StdError>,
) -> (step: Result<Option<Entry>, ContractError>)
    ensures
        scanned_spec(found, step),
{
    match found {
        Err(cause) => Err(ContractError::Std(cause)),
        Ok(None) => Ok(None),
        Ok(Some((id, record))) => match Entry::from_record(id, record) {
            Some(entry) => Ok(Some(entry)),
            None => Err(ContractError::Corrupt),
        },
    }
}

/// What `next_entry` answers.
///
/// `Ok(None)` means that nothing is stored past `cursor`.  An entry that is
/// returned is the one stored under the least identifier past `cursor`.
/// `Corrupt` means that the record under that identifier names no status or
/// no priority, and `Std`, on an intact ledger, that what is there is no
/// record.  So on an intact ledger the answer depends on nothing but what is
/// stored under that identifier.
pub open spec fn next_entry_spec(
    ledger: LedgerState,
    cursor: Option<u64>,
    next: Result<Option<Entry>, ContractError>,
) -> bool {
    match next {
        Ok(None) => forall|id: u64| ledger.holds(id) ==> !past(cursor, id),
        Ok(Some(entry)) => ledger.first_past(cursor, entry.id) && ledger.entry(entry.id) == Some(
            entry@,
        ),
        Err(ContractError::Corrupt) => exists|id: u64|
            ledger.first_past(cursor, id) && ledger.record(id) is Some && ledger.entry(id) is None,
        Err(ContractError::Std(_)) => ledger.intact ==> exists|id: u64|
            ledger.first_past(cursor, id) && ledger.record(id) is None,
        Err(_) => false,
    }
}

/// Reads the first entry past `cursor`, if there is one.
pub fn next_entry(
    view: &LedgerView,
    cursor: Option<u64>,
) -> (next: Result<Option<Entry>, ContractError>)
    ensures
        next_entry_spec(view@, cursor, next),
{
    let found = next_entry_after(view, cursor);
    proof {
        if found is Err && view@.intact {
            let id = choose|id: u64|
                first_past(view@.entries, cursor, id) && view@.entries[id] is None;
            assert(view@.first_past(cursor, id) && view@.record(id) is None);
        }
        assert(found matches Ok(Some(item)) ==> view@.first_past(cursor, item.0)
            && view@.record(item.0) == Some(item.1@));
    }
    scanned(found)
}

/// What `query_list` answers.
///
/// A list that is returned is the page that starts past `start_after` and
/// holds at most `effective_limit(limit)` entries.  An error is the error
/// that `next_entry` gave for the cursor it was handed: `start_after` at
/// first, then the identifier of the entry read last, while the page was not
/// yet full.  So a page of length zero is never an error, and where
/// everything past `start_after` can be read no page is.
pub open spec fn query_list_spec(
    ledger: LedgerState,
    start_after: Option<u64>,
    limit: Option<u32>,
    listed: Result<ListResponse, ContractError>,
) -> bool {
    match listed {
        Ok(list) => ledger.page(start_after, effective_limit(limit), list@),
        Err(error) => exists|seen: Seq<EntryView>|
            {
                &&& seen.len() < effective_limit(limit)
                &&& #[trigger] ledger.page(start_after, seen.len(), seen)
                &&& next_entry_spec(
                    ledger,
                    cursor_after(start_after, seen),
                    Err::<Option<Entry>, ContractError>(error),
                )
            },
    }
}

/// A page that is full stays a page when the entry that comes next is
/// added to it.
proof fn page_grows(ledger: LedgerState, start: Option<u64>, seen: Seq<EntryView>, next: EntryView)
    requires
        ledger.page(start, seen.len(), seen),
        ledger.first_past(cursor_after(start, seen), next.id),
        ledger.entry(next.id) == Some(next),
    ensures
        ledger.page(start, seen.len() + 1, seen.push(next)),
        past(start, next.id),
{
    let more = seen.push(next);
    if seen.len() > 0 {
        assert(past(start, seen[seen.len() - 1].id));
    }
    assert forall|i: int, j: int| 0 <= i < j < more.len() implies more[i].id < more[j].id by {
        if j == seen.len() && i < seen.len() - 1 {
            assert(seen[i].id < seen[seen.len() - 1].id);
        }
    }
    assert forall|id: u64| ledger.holds(id) && past(start, id) implies {
        ||| exists|i: int| 0 <= i < more.len() && #[trigger] more[i].id == id
        ||| more[seen.len() as int].id < id
    } by {
        if exists|i: int| 0 <= i < seen.len() && #[trigger] seen[i].id == id {
            let i = choose|i: int| 0 <= i < seen.len() && #[trigger] seen[i].id == id;
            assert(more[i].id == id);
        } else if id == next.id {
            assert(more[seen.len() as int].id == id);
        } else {
            assert(past(cursor_after(start, seen), id));
            assert(next.id <= id);
        }
    }
}

/// A page after which nothing is stored is the page for every greater
/// length too.
proof fn page_ends(ledger: LedgerState, start: Option<u64>, seen: Seq<EntryView>, limit: nat)
    requires
        ledger.page(start, seen.len(), seen),
        seen.len() <= limit,
        forall|id: u64| ledger.holds(id) ==> !past(cursor_after(start, seen), id),
    ensures
        ledger.page(start, limit, seen),
{
    assert forall|id: u64| ledger.holds(id) && past(start, id) implies (exists|i: int|
        0 <= i < seen.len() && #[trigger] seen[i].id == id) by {
        if seen.len() > 0 {
            assert(!past(Some(seen[seen.len() - 1].id), id));
        }
    }
}

/// Returns one page of entries, in ascending order of their identifiers.
///
/// The page starts with the first entry whose identifier is greater than
/// `start_after`, or with the very first entry where no cursor is given, and
/// holds `effective_limit(limit)` entries unless the ledger runs out first.
/// Where no entry lies past the cursor the page is empty.
pub fn query_list(
    view: &LedgerView,
    start_after: Option<u64>,
    limit: Option<u32>,
) -> (listed: Result<ListResponse, ContractError>)
    ensures
        query_list_spec(view@, start_after, limit, listed),
{
    let length = page_length(limit);
    let mut entries: Vec<Entry> = Vec::new();
    let mut cursor = start_after;
    while entries.len() < length
        invariant
            length == effective_limit(limit),
            entries.len() <= length,
            view@.page(start_after, entries.len() as nat, views(entries@)),
            cursor == cursor_after(start_after, views(entries@)),
        decreases length - entries.len(),
    {
        match next_entry(view, cursor) {
            Err(error) => {
                return Err(error);
            },
            Ok(None) => {
                proof {
                    page_ends(view@, start_after, views(entries@), length as nat);
                }
                return Ok(ListResponse { entries });
            },
            Ok(Some(entry)) => {
                proof {
                    page_grows(view@, start_after, views(entries@), entry@);
                    assert(views(entries@.push(entry)) =~= views(entries@).push(entry@));
                }
                cursor = Some(entry.id);
                entries.push(entry);
            },
        }
    }
    Ok(ListResponse { entries })
}

} // verus!
