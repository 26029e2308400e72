//! The ledger in storage, and every call that reaches it.
//!
//! Verus cannot look into `cosmwasm_std::Deps` and `DepsMut`, so what they
//! hold is named here, and each call into `cosmwasm_std` or `cw_storage_plus`
//! is made by one small function whose contract is assumed, not proved.  The
//! contracts rest on these facts about those crates: a value that was saved
//! is the value that is loaded; saving a string, a number or a tuple of them
//! cannot fail, since writing them as JSON cannot; the keys `config`,
//! `entry_seq` and those below `list` never coincide; keys below `list` are
//! walked in ascending order of the `u64` they encode; and an `Api` gives
//! the same answer to the same question.
use crate::model::{first_past, past};
use vstd::prelude::*;

verus! {

/// The ledger, open for writing.  Holds what a contract is handed when it
/// instantiates or executes.
#[verifier::external_body]
pub struct Ledger<'a> {
    pub deps: cosmwasm_std::DepsMut<'a>,
}

/// The ledger, open for reading.  Holds what a contract is handed when it is
/// queried.
#[verifier::external_body]
pub struct LedgerView<'a> {
    pub deps: cosmwasm_std::Deps<'a>,
}

/// The owner stored under `config`; `None` while nothing readable is there.
pub uninterp spec fn ledger_owner(ledger: Ledger) -> Option<Seq<char>>;

/// The counter stored under `entry_seq`; `None` while nothing readable is there.
pub uninterp spec fn ledger_sequence(ledger: Ledger) -> Option<u64>;

/// What is stored below `list`, by identifier: the record, or `None` for
/// something that cannot be read as a record.
pub uninterp spec fn ledger_entries(ledger: Ledger) -> Map<u64, Option<(Seq<char>, u8, u8)>>;

/// Whether every key below `list` is an identifier, eight bytes long.  A key
/// that is not stands for no entry; a scan that meets one fails.
pub uninterp spec fn ledger_intact(ledger: Ledger) -> bool;

/// Whether the chain takes `address` for a valid address in normal form.
/// That is for the `Api` to say, which answers the same question in the same
/// way every time.
pub uninterp spec fn ledger_accepts(ledger: Ledger, address: Seq<char>) -> bool;

/// As `ledger_owner`, seen through a view.
pub uninterp spec fn view_owner(view: LedgerView) -> Option<Seq<char>>;

/// As `ledger_sequence`, seen through a view.
pub uninterp spec fn view_sequence(view: LedgerView) -> Option<u64>;

/// As `ledger_entries`, seen through a view.
pub uninterp spec fn view_entries(view: LedgerView) -> Map<u64, Option<(Seq<char>, u8, u8)>>;

/// As `ledger_intact`, seen through a view.
pub uninterp spec fn view_intact(view: LedgerView) -> bool;

/// `DepsMut::as_ref`.  Assumed: the view shows the ledger as it stands.
#[verifier::external_body]
pub(crate) fn reader<'b>(ledger: &'b Ledger) -> (view: LedgerView<'b>)
    ensures
        view_owner(view) == ledger_owner(*ledger),
        view_sequence(view) == ledger_sequence(*ledger),
        view_entries(view) == ledger_entries(*ledger),
        view_intact(view) == ledger_intact(*ledger),
{
    LedgerView { deps: ledger.deps.as_ref() }
}

/// `Api::addr_validate`.  Assumed: the answer is the one that
/// `ledger_accepts` names, and an address that is accepted comes back as it
/// was given.
#[verifier::external_body]
pub(crate) fn validate_address(ledger: &Ledger, input: &str) -> (validated: Option<String>)
    ensures
        validated is Some <==> ledger_accepts(*ledger, input@),
        validated matches Some(address) ==> address@ == input@,
{
    ledger.deps.api.addr_validate(input).ok().map(String::from)
}

/// `Item::load` under `config`.  Assumed: it succeeds exactly when an owner is
/// stored, and gives that owner.
#[verifier::external_body]
pub(crate) fn load_owner(view: &LedgerView) -> (loaded: Result<String, cosmwasm_std::StdError>)
    ensures
        loaded is Ok <==> view_owner(*view) is Some,
        loaded matches Ok(owner) ==> view_owner(*view) == Some(owner@),
{
    cw_storage_plus::Item::<String>::new("config").load(view.deps.storage)
}

/// `Item::save` under `config`.  Assumed: it succeeds, a string being
/// written as JSON without fail; the owner is then the one given, and nothing
/// else changes.
#[verifier::external_body]
pub(crate) fn save_owner(
    ledger: &mut Ledger,
    owner: &String,
) -> (saved: Result<(), cosmwasm_std::StdError>)
    ensures
        saved is Ok,
        ledger_owner(*final(ledger)) == Some(owner@),
        ledger_sequence(*final(ledger)) == ledger_sequence(*old(ledger)),
        ledger_entries(*final(ledger)) == ledger_entries(*old(ledger)),
        ledger_intact(*final(ledger)) == ledger_intact(*old(ledger)),
{
    cw_storage_plus::Item::<String>::new("config").save(ledger.deps.storage, owner)
}

/// `Item::load` under `entry_seq`.  Assumed: it succeeds exactly when a
/// counter is stored, and gives that counter.
#[verifier::external_body]
pub(crate) fn load_sequence(view: &LedgerView) -> (loaded: Result<u64, cosmwasm_std::StdError>)
    ensures
        loaded is Ok <==> view_sequence(*view) is Some,
        loaded matches Ok(sequence) ==> view_sequence(*view) == Some(sequence),
{
    cw_storage_plus::Item::<u64>::new("entry_seq").load(view.deps.storage)
}

/// `Item::save` under `entry_seq`.  Assumed: it succeeds, a number being
/// written as JSON without fail; the counter is then the one given, and
/// nothing else changes.
#[verifier::external_body]
pub(crate) fn save_sequence(
    ledger: &mut Ledger,
    sequence: u64,
) -> (saved: Result<(), cosmwasm_std::StdError>)
    ensures
        saved is Ok,
        ledger_sequence(*final(ledger)) == Some(sequence),
        ledger_owner(*final(ledger)) == ledger_owner(*old(ledger)),
        ledger_entries(*final(ledger)) == ledger_entries(*old(ledger)),
        ledger_intact(*final(ledger)) == ledger_intact(*old(ledger)),
{
    cw_storage_plus::Item::<u64>::new("entry_seq").save(ledger.deps.storage, &sequence)
}

/// `Map::may_load` below `list`.  Assumed: `Ok(None)` exactly when nothing is
/// stored under `id`, and otherwise the record stored there or, where it
/// cannot be read, an error.
#[verifier::external_body]
pub(crate) fn load_entry(
    view: &LedgerView,
    id: u64,
) -> (loaded: Result<Option<(String, u8, u8)>, cosmwasm_std::StdError>)
    ensures
        loaded matches Ok(None) <==> !view_entries(*view).dom().contains(id),
        loaded matches Ok(Some(record)) ==> view_entries(*view)[id] == Some(record@),
        loaded is Err ==> view_entries(*view)[id] is None,
{
    cw_storage_plus::Map::<u64, (String, u8, u8)>::new("list").may_load(view.deps.storage, id)
}

/// `Map::save` below `list`.  Assumed: it succeeds, a string and two numbers
/// being written as JSON without fail; the record then stands under `id`,
/// every other record is as before, and nothing else changes.
#[verifier::external_body]
pub(crate) fn save_entry(
    ledger: &mut Ledger,
    id: u64,
    record: &(String, u8, u8),
) -> (saved: Result<(), cosmwasm_std::StdError>)
    ensures
        saved is Ok,
        ledger_entries(*final(ledger)) == ledger_entries(*old(ledger)).insert(id, Some(record@)),
        ledger_owner(*final(ledger)) == ledger_owner(*old(ledger)),
        ledger_sequence(*final(ledger)) == ledger_sequence(*old(ledger)),
        ledger_intact(*final(ledger)) == ledger_intact(*old(ledger)),
{
    cw_storage_plus::Map::<u64, (String, u8, u8)>::new("list").save(ledger.deps.storage, id, record)
}

/// `Map::remove` below `list`.  Assumed: nothing stands under `id` afterwards
/// and every other record is as before; nothing else changes.
#[verifier::external_body]
pub(crate) fn remove_entry(ledger: &mut Ledger, id: u64)
    ensures
        ledger_entries(*final(ledger)) == ledger_entries(*old(ledger)).remove(id),
        ledger_owner(*final(ledger)) == ledger_owner(*old(ledger)),
        ledger_sequence(*final(ledger)) == ledger_sequence(*old(ledger)),
        ledger_intact(*final(ledger)) == ledger_intact(*old(ledger)),
{
    cw_storage_plus::Map::<u64, (String, u8, u8)>::new("list").remove(ledger.deps.storage, id)
}

/// `Map::range`, ascending from just past `start`, and the first item it
/// yields.  Assumed: `Ok(None)` only when nothing lies past `start`; a
/// record that is given is the one stored under the least identifier past
/// `start`; and on an intact ledger an error means that what stands under
/// that least identifier cannot be read as a record.
#[verifier::external_body]
pub(crate) fn next_entry_after(
    view: &LedgerView,
    start: Option<u64>,
) -> (found: Result<Option<(u64, (String, u8, u8))>, cosmwasm_std::StdError>)
    ensures
        found matches Ok(None) ==> forall|id: u64|
            view_entries(*view).dom().contains(id) ==> !past(start, id),
        found matches Ok(Some(item)) ==> first_past(view_entries(*view), start, item.0)
            && view_entries(*view)[item.0] == Some(item.1@),
        found is Err && view_intact(*view) ==> exists|id: u64|
            first_past(view_entries(*view), start, id) && view_entries(*view)[id] is None,
{
    cw_storage_plus::Map::<u64, (String, u8, u8)>::new("list")
        .range(
            view.deps.storage,
            start.map(cw_storage_plus::Bound::exclusive),
            None,
            cosmwasm_std::Order::Ascending,
        )
        .next()
        .transpose()
}

} // verus!
