//! What holds of the ledger over several calls.
//!
//! Each statement is about the relations that the contracts of `instantiate`,
//! `execute` and `query` promise (`create_entry_spec` and its like), so it
//! holds of every run of those functions, whatever is stored.
use crate::contract::execute::{create_entry_spec, delete_entry_spec, update_entry_spec};
use crate::contract::query::{
    effective_limit, next_entry_spec, query_entry_spec, query_list_spec, DEFAULT_LIMIT, MAX_LIMIT,
};
use crate::contract::{execute_spec, instantiate_spec};
use crate::error::ContractError;
use crate::model::{cursor_after, past, LedgerState};
use crate::msg::{EntryResponse, ExecuteMsg, ExecuteResponse, ListResponse};
use crate::state::{Config, Entry, EntryView, Priority, Status};
use vstd::prelude::*;

verus! {

/// One call of `execute`: the ledger before and after, and what was asked and
/// answered.
pub struct Step {
    pub before: LedgerState,
    pub after: LedgerState,
    pub sender: Seq<char>,
    pub msg: ExecuteMsg,
    pub executed: Result<ExecuteResponse, ContractError>,
}

impl Step {
    /// The step is one that `execute` can take.
    pub open spec fn taken(self) -> bool {
        execute_spec(self.before, self.after, self.sender, self.msg, self.executed)
    }

    /// The step created an entry.
    pub open spec fn creates(self) -> bool {
        self.msg is NewEntry && self.executed is Ok
    }

    /// The identifier that the step returned.
    pub open spec fn id(self) -> u64
        recommends
            self.executed is Ok,
    {
        self.executed.unwrap().id()
    }
}

/// Calls of `execute` one after another on one ledger: each starts with the
/// ledger as the one before left it.
pub open spec fn history(steps: Seq<Step>) -> bool {
    &&& forall|i: int| 0 <= i < steps.len() ==> (#[trigger] steps[i]).taken()
    &&& forall|i: int, j: int|
        0 <= i && j == i + 1 && j < steps.len() ==> (#[trigger] steps[i]).after
            == (#[trigger] steps[j]).before
}

/// How many of `steps` created an entry.
pub open spec fn creations(steps: Seq<Step>) -> nat
    decreases steps.len(),
{
    if steps.len() == 0 {
        0
    } else {
        creations(steps.drop_last()) + if steps.last().creates() {
            1nat
        } else {
            0nat
        }
    }
}

/// The first entry that the owner creates on a new ledger gets the
/// identifier 1, without fail.
pub proof fn first_identifier_is_one(
    blank: LedgerState,
    ready: LedgerState,
    after: LedgerState,
    owner: Seq<char>,
    validated: Option<Seq<char>>,
    instantiated: Result<Config, ContractError>,
    description: Seq<char>,
    priority: Option<Priority>,
    created: Result<u64, ContractError>,
)
    requires
        instantiate_spec(blank, ready, owner, validated, instantiated),
        create_entry_spec(
            ready,
            after,
            instantiated.unwrap().owner@,
            description,
            priority,
            created,
        ),
    ensures
        created == Ok::<u64, ContractError>(1),
        after.sequence == Some(1u64),
{
}

/// The counter never goes back, whatever is asked and whatever comes of it;
/// and an entry that is created gets the identifier that the counter then
/// stands at, which is greater than where it stood.
pub proof fn counter_never_goes_back(step: Step)
    requires
        step.taken(),
        step.before.sequence is Some,
    ensures
        step.after.sequence is Some,
        step.before.sequence.unwrap() <= step.after.sequence.unwrap(),
        step.creates() ==> step.after.sequence == Some(step.id()) && step.before.sequence.unwrap()
            < step.id(),
{
}

/// Between two steps of a history the counter does not go back.
proof fn counter_between(steps: Seq<Step>, from: int, to: int)
    requires
        history(steps),
        0 <= from <= to < steps.len(),
        steps[from].before.sequence is Some,
    ensures
        steps[to].before.sequence is Some,
        steps[from].before.sequence.unwrap() <= steps[to].before.sequence.unwrap(),
    decreases to - from,
{
    if from < to {
        counter_between(steps, from, to - 1);
        counter_never_goes_back(steps[to - 1]);
        assert(steps[to - 1].after == steps[to].before);
    }
}

/// Identifiers are never handed out twice and always go up: of two entries
/// created in one history the later has the greater identifier, whatever
/// else was asked in between and whether or not it failed.
pub proof fn identifiers_increase(steps: Seq<Step>, earlier: int, later: int)
    requires
        history(steps),
        0 <= earlier < later < steps.len(),
        steps[earlier].creates(),
        steps[later].creates(),
    ensures
        steps[earlier].id() < steps[later].id(),
{
    assert(steps[earlier].taken());
    counter_never_goes_back(steps[earlier]);
    assert(steps[earlier].after == steps[earlier + 1].before);
    counter_between(steps, earlier + 1, later);
    assert(steps[later].taken());
    counter_never_goes_back(steps[later]);
}

/// Where the counter stands after the first `upto` steps of a history: it
/// has moved up by the number of entries created.
proof fn counter_counts_creations(steps: Seq<Step>, upto: int)
    requires
        history(steps),
        0 <= upto <= steps.len(),
        steps.len() > 0,
        steps[0].before.sequence is Some,
    ensures
        upto > 0 ==> steps[upto - 1].after.sequence == Some(
            (steps[0].before.sequence.unwrap() + creations(steps.subrange(0, upto))) as u64,
        ),
        steps[0].before.sequence.unwrap() + creations(steps.subrange(0, upto)) <= u64::MAX,
    decreases upto,
{
    if upto == 0 {
        assert(steps.subrange(0, 0).len() == 0);
    } else {
        counter_counts_creations(steps, upto - 1);
        assert(steps.subrange(0, upto).drop_last() =~= steps.subrange(0, upto - 1));
        assert(steps.subrange(0, upto).last() == steps[upto - 1]);
        assert(steps[upto - 1].taken());
        if upto > 1 {
            assert(steps[upto - 2].after == steps[upto - 1].before);
        }
    }
}

/// Identifiers are handed out one by one, with no gap: in a history, an entry
/// that is created gets the identifier that comes after the counter's start
/// and the entries created before it, whatever was updated, deleted, refused
/// or failed in between.  On a ledger that was just instantiated the entries
/// so get 1, 2, 3 and so on.
pub proof fn identifiers_are_consecutive(steps: Seq<Step>, at: int)
    requires
        history(steps),
        0 <= at < steps.len(),
        steps[0].before.sequence is Some,
        steps[at].creates(),
    ensures
        steps[at].id() == steps[0].before.sequence.unwrap() + creations(steps.subrange(0, at)) + 1,
{
    counter_counts_creations(steps, at);
    assert(steps[at].taken());
    if at > 0 {
        assert(steps[at - 1].after == steps[at].before);
    }
}

/// A call of `execute` that fails leaves the ledger exactly as it was:
/// nothing is written in part, and no identifier is used up.
pub proof fn failed_execute_changes_nothing(
    before: LedgerState,
    after: LedgerState,
    sender: Seq<char>,
    msg: ExecuteMsg,
    executed: Result<ExecuteResponse, ContractError>,
)
    requires
        execute_spec(before, after, sender, msg, executed),
        executed is Err,
    ensures
        after == before,
{
}

/// Instantiating always succeeds.  The owner is the requested one where the
/// chain accepts it, and the sender where it does not or none is requested;
/// the counter is at zero.
pub proof fn instantiate_settles_the_owner(
    before: LedgerState,
    after: LedgerState,
    sender: Seq<char>,
    validated: Option<Seq<char>>,
    instantiated: Result<Config, ContractError>,
)
    requires
        instantiate_spec(before, after, sender, validated, instantiated),
    ensures
        instantiated is Ok,
        validated is None ==> instantiated.unwrap().owner@ == sender,
        validated matches Some(address) ==> instantiated.unwrap().owner@ == address,
        after.owner == Some(instantiated.unwrap().owner@),
        after.sequence == Some(0u64),
        after.entries == before.entries,
{
}

/// The outcome of `create_entry` depends on nothing but the owner and the
/// counter: the owner succeeds whenever an identifier is left, and each error
/// comes in exactly one case.
pub proof fn create_entry_outcome_is_exact(
    before: LedgerState,
    after: LedgerState,
    sender: Seq<char>,
    description: Seq<char>,
    priority: Option<Priority>,
    created: Result<u64, ContractError>,
)
    requires
        create_entry_spec(before, after, sender, description, priority, created),
    ensures
        created is Ok <==> before.admits(sender) && before.next_id() is Some,
        created is Ok ==> created == Ok::<u64, ContractError>(before.next_id().unwrap())
            && after.sequence == before.next_id(),
        created == Err::<u64, ContractError>(ContractError::Unauthorized) <==> before.refuses(
            sender,
        ),
        created == Err::<u64, ContractError>(ContractError::SequenceExhausted) <==> before.admits(
            sender,
        ) && before.sequence == Some(u64::MAX),
        created matches Err(ContractError::Std(_)) <==> before.owner is None || (before.admits(
            sender,
        ) && before.sequence is None),
{
}

/// The outcome of `update_entry` depends on nothing but the owner and what
/// is stored under the identifier: the owner succeeds whenever an entry is
/// there, and each error comes in exactly one case.
pub proof fn update_entry_outcome_is_exact(
    before: LedgerState,
    after: LedgerState,
    sender: Seq<char>,
    id: u64,
    description: Option<Seq<char>>,
    status: Option<Status>,
    priority: Option<Priority>,
    updated: Result<u64, ContractError>,
)
    requires
        update_entry_spec(before, after, sender, id, description, status, priority, updated),
    ensures
        updated == Ok::<u64, ContractError>(id) <==> before.admits(sender) && before.entry(id)
            is Some,
        updated is Ok ==> updated == Ok::<u64, ContractError>(id),
        updated == Err::<u64, ContractError>(ContractError::Unauthorized) <==> before.refuses(
            sender,
        ),
        updated == Err::<u64, ContractError>(ContractError::NotFound) <==> before.admits(sender)
            && !before.holds(id),
        updated == Err::<u64, ContractError>(ContractError::Corrupt) <==> before.admits(sender)
            && before.record(id) is Some && before.entry(id) is None,
        updated matches Err(ContractError::Std(_)) <==> before.owner is None || (before.admits(
            sender,
        ) && before.holds(id) && before.record(id) is None),
{
}

/// `delete_entry` succeeds for the owner, always, and for nobody else.
pub proof fn delete_entry_outcome_is_exact(
    before: LedgerState,
    after: LedgerState,
    sender: Seq<char>,
    id: u64,
    deleted: Result<u64, ContractError>,
)
    requires
        delete_entry_spec(before, after, sender, id, deleted),
    ensures
        deleted == Ok::<u64, ContractError>(id) <==> before.admits(sender),
        deleted == Err::<u64, ContractError>(ContractError::Unauthorized) <==> before.refuses(
            sender,
        ),
        deleted matches Err(ContractError::Std(_)) <==> before.owner is None,
{
}

/// What `query_entry` answers depends on nothing but what is stored under
/// the identifier: the entry where there is one, and each error in exactly
/// one case.
pub proof fn query_entry_outcome_is_exact(
    ledger: LedgerState,
    id: u64,
    found: Result<EntryResponse, ContractError>,
)
    requires
        query_entry_spec(ledger, id, found),
    ensures
        found is Ok <==> ledger.entry(id) is Some,
        found == Err::<EntryResponse, ContractError>(ContractError::NotFound) <==> !ledger.holds(
            id,
        ),
        found == Err::<EntryResponse, ContractError>(ContractError::Corrupt) <==> ledger.record(
            id,
        ) is Some && ledger.entry(id) is None,
        found matches Err(ContractError::Std(_)) <==> ledger.holds(id) && ledger.record(id)
            is None,
{
}

/// No change touches the owner: once instantiated, a ledger keeps its owner.
pub proof fn execute_keeps_owner(
    before: LedgerState,
    after: LedgerState,
    sender: Seq<char>,
    msg: ExecuteMsg,
    executed: Result<ExecuteResponse, ContractError>,
)
    requires
        execute_spec(before, after, sender, msg, executed),
    ensures
        after.owner == before.owner,
{
}

/// An entry that was created can be read back as it was asked for, and no
/// other entry was touched.
pub proof fn created_entry_is_stored(
    before: LedgerState,
    after: LedgerState,
    sender: Seq<char>,
    description: Seq<char>,
    priority: Option<Priority>,
    created: Result<u64, ContractError>,
)
    requires
        create_entry_spec(before, after, sender, description, priority, created),
        created is Ok,
    ensures
        after.entry(created.unwrap()) == Some(
            EntryView::fresh(created.unwrap(), description, priority),
        ),
        forall|other: u64| other != created.unwrap() ==> after.entry(other) == before.entry(other),
{
}

/// An entry that was updated can be read back with each given field
/// replaced and the rest as before; its identifier is the same, and no other
/// entry was touched.
pub proof fn updated_entry_is_merged(
    before: LedgerState,
    after: LedgerState,
    sender: Seq<char>,
    id: u64,
    description: Option<Seq<char>>,
    status: Option<Status>,
    priority: Option<Priority>,
    updated: Result<u64, ContractError>,
)
    requires
        update_entry_spec(before, after, sender, id, description, status, priority, updated),
        updated is Ok,
    ensures
        after.entry(id) == Some(before.entry(id).unwrap().merged(description, status, priority)),
        after.entry(id).unwrap().id == id,
        forall|other: u64| other != id ==> after.entry(other) == before.entry(other),
{
}

/// Deleting an entry touches no other entry.
pub proof fn deleted_entry_is_alone(
    before: LedgerState,
    after: LedgerState,
    sender: Seq<char>,
    id: u64,
    deleted: Result<u64, ContractError>,
)
    requires
        delete_entry_spec(before, after, sender, id, deleted),
    ensures
        forall|other: u64| other != id ==> after.entry(other) == before.entry(other),
        after.owner == before.owner,
        after.sequence == before.sequence,
{
}

/// An update that gives no field leaves the ledger exactly as it was.
pub proof fn empty_update_changes_nothing(
    before: LedgerState,
    after: LedgerState,
    sender: Seq<char>,
    id: u64,
    updated: Result<u64, ContractError>,
)
    requires
        update_entry_spec(before, after, sender, id, None, None, None, updated),
    ensures
        after == before,
{
    if updated is Ok {
        assert(after.entries =~= before.entries);
    }
}

/// Deleting is idempotent: where the owner deletes an entry, deleting it once
/// more succeeds as well and changes nothing further.
pub proof fn delete_twice_succeeds(
    before: LedgerState,
    between: LedgerState,
    after: LedgerState,
    sender: Seq<char>,
    id: u64,
    first: Result<u64, ContractError>,
    second: Result<u64, ContractError>,
)
    requires
        before.admits(sender),
        delete_entry_spec(before, between, sender, id, first),
        delete_entry_spec(between, after, sender, id, second),
    ensures
        first == Ok::<u64, ContractError>(id),
        second == Ok::<u64, ContractError>(id),
        after == between,
{
    assert(after.entries =~= between.entries);
}

/// An entry that was deleted is not found.
pub proof fn deleted_entry_is_not_found(
    before: LedgerState,
    after: LedgerState,
    sender: Seq<char>,
    id: u64,
    deleted: Result<u64, ContractError>,
    found: Result<EntryResponse, ContractError>,
)
    requires
        delete_entry_spec(before, after, sender, id, deleted),
        deleted is Ok,
        query_entry_spec(after, id, found),
    ensures
        found == Err::<EntryResponse, ContractError>(ContractError::NotFound),
{
}

/// Once gone, an identifier stays gone: through whatever steps follow.
proof fn gone_stays_gone(steps: Seq<Step>, from: int, to: int, id: u64)
    requires
        history(steps),
        0 <= from <= to < steps.len(),
        !steps[from].after.holds(id),
        steps[from].after.sequence matches Some(counter) && id <= counter,
    ensures
        !steps[to].after.holds(id),
        steps[to].after.sequence matches Some(counter) && id <= counter,
    decreases to - from,
{
    if from < to {
        gone_stays_gone(steps, from, to - 1, id);
        assert(steps[to - 1].after == steps[to].before);
        assert(steps[to].taken());
    }
}

/// An entry that was deleted stays deleted: whatever is created, updated or
/// deleted afterwards, and whatever fails, looking it up gives `NotFound`.
/// The identifier is one that the counter has handed out, as every entry's
/// is in a well-formed ledger.
pub proof fn deleted_entry_stays_not_found(
    steps: Seq<Step>,
    at: int,
    later: int,
    id: u64,
    found: Result<EntryResponse, ContractError>,
)
    requires
        history(steps),
        0 <= at <= later < steps.len(),
        steps[at].msg == (ExecuteMsg::DeleteEntry { id }),
        steps[at].executed is Ok,
        steps[at].before.sequence matches Some(counter) && id <= counter,
        query_entry_spec(steps[later].after, id, found),
    ensures
        !steps[later].after.holds(id),
        found == Err::<EntryResponse, ContractError>(ContractError::NotFound),
{
    assert(steps[at].taken());
    gone_stays_gone(steps, at, later, id);
}

/// Instantiating a ledger that holds no entry gives a well-formed ledger.
pub proof fn instantiate_gives_well_formed(
    blank: LedgerState,
    ready: LedgerState,
    sender: Seq<char>,
    requested: Option<Seq<char>>,
    instantiated: Result<Config, ContractError>,
)
    requires
        forall|id: u64| !blank.holds(id),
        instantiate_spec(blank, ready, sender, requested, instantiated),
    ensures
        ready.well_formed(),
{
    assert forall|id: u64| ready.holds(id) implies 1 <= id <= ready.sequence.unwrap() by {
        assert(blank.holds(id));
    }
}

/// No call of `execute` takes a well-formed ledger to one that is not,
/// whether it succeeds or fails.
pub proof fn execute_keeps_well_formed(
    before: LedgerState,
    after: LedgerState,
    sender: Seq<char>,
    msg: ExecuteMsg,
    executed: Result<ExecuteResponse, ContractError>,
)
    requires
        before.well_formed(),
        execute_spec(before, after, sender, msg, executed),
    ensures
        after.well_formed(),
{
    assert forall|id: u64| after.holds(id) implies 1 <= id <= after.sequence.unwrap() by {
        if before.holds(id) {
            assert(1 <= id <= before.sequence.unwrap());
        }
    }
}

/// An identifier that was never handed out is not found: in a well-formed
/// ledger nothing is stored under 0 or past the counter.
pub proof fn never_created_entry_is_not_found(
    ledger: LedgerState,
    id: u64,
    found: Result<EntryResponse, ContractError>,
)
    requires
        ledger.well_formed(),
        id == 0 || id > ledger.sequence.unwrap(),
        query_entry_spec(ledger, id, found),
    ensures
        found == Err::<EntryResponse, ContractError>(ContractError::NotFound),
{
}

/// A page is never longer than asked for, never longer than `MAX_LIMIT`, and
/// no longer than `DEFAULT_LIMIT` where no length is asked for.  It is in
/// strictly ascending order of identifiers, and every identifier in it is
/// greater than the cursor.
pub proof fn page_is_bounded_and_ordered(
    ledger: LedgerState,
    start_after: Option<u64>,
    limit: Option<u32>,
    listed: Result<ListResponse, ContractError>,
)
    requires
        query_list_spec(ledger, start_after, limit, listed),
        listed is Ok,
    ensures
        listed.unwrap()@.len() <= MAX_LIMIT,
        limit is None ==> listed.unwrap()@.len() <= DEFAULT_LIMIT,
        limit matches Some(n) ==> listed.unwrap()@.len() <= n,
        forall|i: int, j: int|
            0 <= i < j < listed.unwrap()@.len() ==> listed.unwrap()@[i].id < listed.unwrap()@[j].id,
        forall|i: int|
            0 <= i < listed.unwrap()@.len() ==> past(start_after, #[trigger] listed.unwrap()@[i].id),
        start_after matches Some(cursor) ==> forall|i: int|
            0 <= i < listed.unwrap()@.len() ==> cursor < #[trigger] listed.unwrap()@[i].id,
{
}

/// A page of length zero is never an error, and is empty.
pub proof fn empty_page_is_no_error(
    ledger: LedgerState,
    start_after: Option<u64>,
    limit: Option<u32>,
    listed: Result<ListResponse, ContractError>,
)
    requires
        query_list_spec(ledger, start_after, limit, listed),
        effective_limit(limit) == 0,
    ensures
        listed is Ok,
        listed.unwrap()@.len() == 0,
{
}

/// Where everything past the cursor can be read, the page is owed:
/// `query_list` returns it and no error.
pub proof fn readable_page_is_owed(
    ledger: LedgerState,
    start_after: Option<u64>,
    limit: Option<u32>,
    listed: Result<ListResponse, ContractError>,
)
    requires
        query_list_spec(ledger, start_after, limit, listed),
        ledger.readable_past(start_after),
    ensures
        listed is Ok,
        ledger.page(start_after, effective_limit(limit), listed.unwrap()@),
{
    if listed is Err {
        let error = listed->Err_0;
        let seen = choose|seen: Seq<EntryView>|
            {
                &&& seen.len() < effective_limit(limit)
                &&& #[trigger] ledger.page(start_after, seen.len(), seen)
                &&& next_entry_spec(
                    ledger,
                    cursor_after(start_after, seen),
                    Err::<Option<Entry>, ContractError>(error),
                )
            };
        let cursor = cursor_after(start_after, seen);
        if seen.len() > 0 {
            assert(past(start_after, seen[seen.len() - 1].id));
        }
        assert forall|id: u64| ledger.first_past(cursor, id) implies ledger.entry(id) is Some by {
            assert(ledger.holds(id) && past(start_after, id));
        }
    }
}

/// On an intact ledger `query_list` returns the page exactly when there is
/// one: when each of the first entries past the cursor, as many as the page
/// is long, can be read.  What lies further on does not matter.
pub proof fn page_that_exists_is_owed(
    ledger: LedgerState,
    start_after: Option<u64>,
    limit: Option<u32>,
    listed: Result<ListResponse, ContractError>,
    page: Seq<EntryView>,
)
    requires
        query_list_spec(ledger, start_after, limit, listed),
        ledger.intact,
        ledger.page(start_after, effective_limit(limit), page),
    ensures
        listed is Ok,
        listed.unwrap()@ == page,
{
    let length = effective_limit(limit);
    if listed is Err {
        let error = listed->Err_0;
        let seen = choose|seen: Seq<EntryView>|
            {
                &&& seen.len() < length
                &&& #[trigger] ledger.page(start_after, seen.len(), seen)
                &&& next_entry_spec(
                    ledger,
                    cursor_after(start_after, seen),
                    Err::<Option<Entry>, ContractError>(error),
                )
            };
        let cursor = cursor_after(start_after, seen);
        let n = seen.len() as int;
        if n > 0 {
            assert(past(start_after, seen[n - 1].id));
        }
        // the scan failed at the first identifier past what it had seen
        let bad = choose|id: u64| ledger.first_past(cursor, id) && ledger.entry(id) is None;
        assert(ledger.holds(bad) && past(start_after, bad));
        // the page does not hold it, so the page is full and ends before it
        assert(page.len() == length && page[length - 1].id < bad) by {
            if exists|i: int| 0 <= i < page.len() && #[trigger] page[i].id == bad {
                let i = choose|i: int| 0 <= i < page.len() && #[trigger] page[i].id == bad;
                assert(ledger.entry(page[i].id) == Some(page[i]));
            }
        }
        // but the page's next entry lies past what the scan had seen
        let next = page[n].id;
        assert(ledger.holds(next) && past(start_after, next)) by {
            assert(ledger.entry(page[n].id) == Some(page[n]));
        }
        if n > 0 {
            pages_agree_at(ledger, start_after, seen.len(), seen, length, page, n - 1);
            assert(page[n - 1].id < page[n].id);
        }
        assert(past(cursor, next));
        if n < length - 1 {
            assert(page[n].id < page[length - 1].id);
        }
        assert(bad <= next);
    }
    page_is_unique(ledger, start_after, length, listed.unwrap()@, page);
}

/// Where nothing is stored past the cursor, and nothing lies among the
/// records that is none, the page is empty and no error.
pub proof fn nothing_past_cursor_is_an_empty_page(
    ledger: LedgerState,
    start_after: Option<u64>,
    limit: Option<u32>,
    listed: Result<ListResponse, ContractError>,
)
    requires
        query_list_spec(ledger, start_after, limit, listed),
        ledger.intact,
        forall|id: u64| ledger.holds(id) ==> !past(start_after, id),
    ensures
        listed is Ok,
        listed.unwrap()@.len() == 0,
{
    readable_page_is_owed(ledger, start_after, limit, listed);
    let page = listed.unwrap()@;
    if page.len() > 0 {
        assert(past(start_after, page[0].id));
        assert(ledger.entry(page[0].id) == Some(page[0]));
    }
}

/// Where two pages from the same cursor agree before `at`, the second has no
/// greater identifier at `at` than the first, whatever their lengths.
proof fn page_comes_no_later(
    ledger: LedgerState,
    start: Option<u64>,
    limit: nat,
    one: Seq<EntryView>,
    other_limit: nat,
    other: Seq<EntryView>,
    at: int,
)
    requires
        ledger.page(start, limit, one),
        ledger.page(start, other_limit, other),
        0 <= at < one.len(),
        at < other.len(),
        forall|j: int| 0 <= j < at ==> one[j].id == other[j].id,
    ensures
        other[at].id <= one[at].id,
{
    let id = one[at].id;
    assert(ledger.holds(id) && past(start, id));
    if exists|j: int| 0 <= j < other.len() && #[trigger] other[j].id == id {
        let j = choose|j: int| 0 <= j < other.len() && #[trigger] other[j].id == id;
        if j < at {
            assert(one[j].id < one[at].id);
        } else if j > at {
            assert(other[at].id < other[j].id);
        }
    } else {
        if at < other_limit - 1 {
            assert(other[at].id < other[other_limit - 1].id);
        }
    }
}

/// Two pages from the same cursor agree on the identifier at each place that
/// both have, whatever their lengths.
proof fn pages_agree_at(
    ledger: LedgerState,
    start: Option<u64>,
    limit: nat,
    one: Seq<EntryView>,
    other_limit: nat,
    other: Seq<EntryView>,
    at: int,
)
    requires
        ledger.page(start, limit, one),
        ledger.page(start, other_limit, other),
        0 <= at < one.len(),
        at < other.len(),
    ensures
        one[at].id == other[at].id,
    decreases at,
{
    assert forall|j: int| 0 <= j < at implies one[j].id == other[j].id by {
        pages_agree_at(ledger, start, limit, one, other_limit, other, j);
    }
    page_comes_no_later(ledger, start, limit, one, other_limit, other, at);
    page_comes_no_later(ledger, start, other_limit, other, limit, one, at);
}

/// Of two pages for the same request the second is no longer than the first.
proof fn page_is_no_longer(
    ledger: LedgerState,
    start: Option<u64>,
    limit: nat,
    one: Seq<EntryView>,
    other: Seq<EntryView>,
)
    requires
        ledger.page(start, limit, one),
        ledger.page(start, limit, other),
    ensures
        other.len() <= one.len(),
{
    if one.len() < other.len() {
        let n = one.len() as int;
        let id = other[n].id;
        assert(ledger.holds(id) && past(start, id));
        if exists|j: int| 0 <= j < one.len() && #[trigger] one[j].id == id {
            let j = choose|j: int| 0 <= j < one.len() && #[trigger] one[j].id == id;
            pages_agree_at(ledger, start, limit, one, limit, other, j);
            assert(other[j].id < other[n].id);
        }
    }
}

/// A request has one page and no other: `query_list` cannot return anything
/// else.
pub proof fn page_is_unique(
    ledger: LedgerState,
    start: Option<u64>,
    limit: nat,
    one: Seq<EntryView>,
    other: Seq<EntryView>,
)
    requires
        ledger.page(start, limit, one),
        ledger.page(start, limit, other),
    ensures
        one == other,
{
    page_is_no_longer(ledger, start, limit, one, other);
    page_is_no_longer(ledger, start, limit, other, one);
    assert forall|i: int| 0 <= i < one.len() implies one[i] == other[i] by {
        pages_agree_at(ledger, start, limit, one, limit, other, i);
        assert(ledger.entry(one[i].id) == Some(one[i]));
        assert(ledger.entry(other[i].id) == Some(other[i]));
    }
    assert(one =~= other);
}

/// Paging by cursor misses nothing and repeats nothing: a page, followed by
/// the page that starts past its last entry, is the longer page that a
/// single request of both lengths would have got.
pub proof fn next_page_continues(
    ledger: LedgerState,
    start: Option<u64>,
    first_limit: nat,
    first: Seq<EntryView>,
    second_limit: nat,
    second: Seq<EntryView>,
)
    requires
        ledger.page(start, first_limit, first),
        first.len() > 0,
        ledger.page(Some(first.last().id), second_limit, second),
    ensures
        ledger.page(start, first_limit + second_limit, first + second),
{
    let both = first + second;
    let cursor = first.last().id;
    assert(past(start, cursor)) by {
        assert(first[first.len() - 1].id == cursor);
    }
    assert forall|i: int| 0 <= i < both.len() implies past(start, #[trigger] both[i].id)
        && ledger.entry(both[i].id) == Some(both[i]) by {
        if i < first.len() {
            assert(both[i] == first[i]);
            assert(past(start, first[i].id));
        } else {
            assert(both[i] == second[i - first.len()]);
            assert(past(Some(cursor), second[i - first.len()].id));
        }
    }
    assert forall|i: int, j: int| 0 <= i < j < both.len() implies both[i].id < both[j].id by {
        if j < first.len() {
            assert(first[i].id < first[j].id);
        } else if i >= first.len() {
            assert(second[i - first.len()].id < second[j - first.len()].id);
        } else {
            assert(past(Some(cursor), second[j - first.len()].id));
            if i < first.len() - 1 {
                assert(first[i].id < first[first.len() - 1].id);
            }
        }
    }
    assert forall|id: u64| ledger.holds(id) && past(start, id) implies {
        ||| exists|i: int| 0 <= i < both.len() && #[trigger] both[i].id == id
        ||| both.len() == first_limit + second_limit && (first_limit + second_limit > 0 ==> both[
            first_limit + second_limit - 1].id < id)
    } by {
        if exists|i: int| 0 <= i < first.len() && #[trigger] first[i].id == id {
            let i = choose|i: int| 0 <= i < first.len() && #[trigger] first[i].id == id;
            assert(both[i].id == id);
        } else {
            assert(past(Some(cursor), id));
            if exists|i: int| 0 <= i < second.len() && #[trigger] second[i].id == id {
                let i = choose|i: int| 0 <= i < second.len() && #[trigger] second[i].id == id;
                assert(both[first.len() + i].id == id);
            } else if second_limit > 0 {
                assert(both[both.len() - 1] == second[second_limit - 1]);
            } else {
                assert(both[both.len() - 1] == first[first_limit - 1]);
            }
        }
    }
}

/// A caller who is not the owner changes nothing: every change is refused
/// with `Unauthorized` and the ledger stays exactly as it was.
pub proof fn stranger_changes_nothing(
    before: LedgerState,
    after: LedgerState,
    sender: Seq<char>,
    msg: ExecuteMsg,
    executed: Result<ExecuteResponse, ContractError>,
)
    requires
        before.refuses(sender),
        execute_spec(before, after, sender, msg, executed),
    ensures
        executed == Err::<ExecuteResponse, ContractError>(ContractError::Unauthorized),
        after == before,
{
}

} // verus!
