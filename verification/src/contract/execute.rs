//! The changes that the owner may make.
use crate::error::ContractError;
use crate::ledger::{
    load_entry, load_owner, load_sequence, reader, remove_entry, save_entry, save_sequence, Ledger,
    LedgerView,
};
use crate::model::LedgerState;
use crate::state::{chars, Entry, Priority, Status};
use vstd::prelude::*;

verus! {

/// Lets the owner through and nobody else.  Touches nothing.
///
/// `Std` reports that no owner could be read.
pub fn authorize(view: &LedgerView, sender: &str) -> (checked: Result<(), ContractError>)
    ensures
        match checked {
            Ok(_) => view@.admits(sender@),
            Err(ContractError::Unauthorized) => view@.refuses(sender@),
            Err(ContractError::Std(_)) => view@.owner is None,
            Err(_) => false,
        },
{
    match load_owner(view) {
        Ok(owner) => {
            if owner == sender.to_owned() {
                Ok(())
            } else {
                Err(ContractError::Unauthorized)
            }
        },
        Err(cause) => Err(ContractError::Std(cause)),
    }
}

/// The identifier after `last`, if there is one.
pub fn successor(last: u64) -> (next: Option<u64>)
    ensures
        next == if last < u64::MAX {
            Some((last + 1) as u64)
        } else {
            None
        },
{
    last.checked_add(1)
}

/// What `create_entry` returns and what it makes of the ledger.
///
/// The owner succeeds whenever the counter can go further: the identifier is
/// one more than the counter stood at, the counter stands at the identifier,
/// and the new entry is stored under it.  A caller who is not the owner gets
/// `Unauthorized`, and the owner gets `SequenceExhausted` where the counter
/// cannot go further.  `Std` reports that no owner or no counter can be read.
/// No error changes anything.
pub open spec fn create_entry_spec(
    before: LedgerState,
    after: LedgerState,
    sender: Seq<char>,
    description: Seq<char>,
    priority: Option<Priority>,
    created: Result<u64, ContractError>,
) -> bool {
    match created {
        Ok(id) => {
            &&& before.admits(sender)
            &&& before.next_id() == Some(id)
            &&& after == before.created(description, priority)
        },
        Err(ContractError::Unauthorized) => before.refuses(sender) && after == before,
        Err(ContractError::SequenceExhausted) => {
            &&& before.admits(sender)
            &&& before.sequence == Some(u64::MAX)
            &&& after == before
        },
        Err(ContractError::Std(_)) => {
            &&& before.owner is None || (before.admits(sender) && before.sequence is None)
            &&& after == before
        },
        Err(_) => false,
    }
}

/// Adds an entry under the next identifier and returns that identifier.
///
/// Only the owner may do so.  The new entry is not started, and has the
/// priority asked for or none.
pub fn create_entry(
    ledger: &mut Ledger,
    sender: &str,
    description: String,
    priority: Option<Priority>,
) -> (created: Result<u64, ContractError>)
    ensures
        create_entry_spec(
            old(ledger)@,
            final(ledger)@,
            sender@,
            description@,
            priority,
            created,
        ),
{
    match authorize(&reader(ledger), sender) {
        Err(denied) => {
            return Err(denied);
        },
        Ok(_) => {},
    }
    let last = match load_sequence(&reader(ledger)) {
        Ok(last) => last,
        Err(cause) => {
            return Err(ContractError::Std(cause));
        },
    };
    let id = match successor(last) {
        Some(id) => id,
        None => {
            return Err(ContractError::SequenceExhausted);
        },
    };
    // neither save can fail; the error arms are there for the types' sake
    match save_sequence(ledger, id) {
        Ok(_) => {},
        Err(cause) => {
            return Err(ContractError::Std(cause));
        },
    }
    let entry = Entry::new(id, description, priority);
    match save_entry(ledger, id, &entry.into_record()) {
        Ok(_) => Ok(id),
        Err(cause) => Err(ContractError::Std(cause)),
    }
}

/// What `update_entry` returns and what it makes of the ledger.
///
/// The owner succeeds whenever an entry is stored under `id`: it then holds
/// each field that was given and, for the rest, what it held before.  A
/// caller who is not the owner gets `Unauthorized`.  The owner gets
/// `NotFound` where nothing is stored under `id`, `Corrupt` where the record
/// there names no status or no priority, and `Std` where what is there is no
/// record.  `Std` also reports that no owner can be read.  No error changes
/// anything.
pub open spec fn update_entry_spec(
    before: LedgerState,
    after: LedgerState,
    sender: Seq<char>,
    id: u64,
    description: Option<Seq<char>>,
    status: Option<Status>,
    priority: Option<Priority>,
    updated: Result<u64, ContractError>,
) -> bool {
    &&& match updated {
        Ok(same) => {
            &&& same == id
            &&& before.admits(sender)
            &&& before.entry(id) is Some
            &&& after == before.updated(id, description, status, priority)
        },
        Err(ContractError::Unauthorized) => before.refuses(sender),
        Err(ContractError::NotFound) => before.admits(sender) && !before.holds(id),
        Err(ContractError::Corrupt) => {
            &&& before.admits(sender)
            &&& before.record(id) is Some
            &&& before.entry(id) is None
        },
        Err(ContractError::Std(_)) => {
            ||| before.owner is None
            ||| before.admits(sender) && before.holds(id) && before.record(id) is None
        },
        Err(_) => false,
    }
    &&& updated is Err ==> after == before
}

/// Changes the entry stored under `id` and returns `id`.
///
/// Only the owner may do so.  Each of `description`, `status` and `priority`
/// that is given replaces what the entry had; what is left out stays.
pub fn update_entry(
    ledger: &mut Ledger,
    sender: &str,
    id: u64,
    description: Option<String>,
    status: Option<Status>,
    priority: Option<Priority>,
) -> (updated: Result<u64, ContractError>)
    ensures
        update_entry_spec(
            old(ledger)@,
            final(ledger)@,
            sender@,
            id,
            chars(description),
            status,
            priority,
            updated,
        ),
{
    match authorize(&reader(ledger), sender) {
        Err(denied) => {
            return Err(denied);
        },
        Ok(_) => {},
    }
    let record = match load_entry(&reader(ledger), id) {
        Ok(Some(record)) => record,
        Ok(None) => {
            return Err(ContractError::NotFound);
        },
        Err(cause) => {
            return Err(ContractError::Std(cause));
        },
    };
    let entry = match Entry::from_record(id, record) {
        Some(entry) => entry,
        None => {
            return Err(ContractError::Corrupt);
        },
    };
    let merged = entry.merge(description, status, priority);
    // the save cannot fail; the error arm is there for the type's sake
    match save_entry(ledger, id, &merged.into_record()) {
        Ok(_) => Ok(id),
        Err(cause) => Err(ContractError::Std(cause)),
    }
}

/// What `delete_entry` returns and what it makes of the ledger.
///
/// The call succeeds exactly when the caller is the owner, whether or not an
/// entry was there, and then nothing is stored under `id`.  Anybody else gets
/// `Unauthorized`.  `Std` reports that no owner could be read.  No error
/// changes anything.
pub open spec fn delete_entry_spec(
    before: LedgerState,
    after: LedgerState,
    sender: Seq<char>,
    id: u64,
    deleted: Result<u64, ContractError>,
) -> bool {
    match deleted {
        Ok(same) => same == id && before.admits(sender) && after == before.deleted(id),
        Err(ContractError::Unauthorized) => before.refuses(sender) && after == before,
        Err(ContractError::Std(_)) => before.owner is None && after == before,
        Err(_) => false,
    }
}

/// Removes whatever is stored under `id` and returns `id`.
///
/// Only the owner may do so.
pub fn delete_entry(
    ledger: &mut Ledger,
    sender: &str,
    id: u64,
) -> (deleted: Result<u64, ContractError>)
    ensures
        delete_entry_spec(old(ledger)@, final(ledger)@, sender@, id, deleted),
{
    match authorize(&reader(ledger), sender) {
        Err(denied) => {
            return Err(denied);
        },
        Ok(_) => {},
    }
    remove_entry(ledger, id);
    Ok(id)
}

} // verus!
