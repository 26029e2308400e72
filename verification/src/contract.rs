//! The three entry points of the contract: set up, change, ask.
pub mod execute;
pub mod query;

use crate::contract::execute::{
    create_entry, create_entry_spec, delete_entry, delete_entry_spec, update_entry,
    update_entry_spec,
};
use crate::contract::query::{query_entry, query_entry_spec, query_list, query_list_spec};
use crate::error::ContractError;
use crate::ledger::{
    ledger_accepts, save_owner, save_sequence, validate_address, Ledger, LedgerView,
};
use crate::model::LedgerState;
use crate::msg::{
    EntryResponse, ExecuteMsg, ExecuteResponse, InstantiateMsg, ListResponse, QueryMsg,
    QueryResponse,
};
use crate::state::{chars, Config};
use vstd::prelude::*;

verus! {

/// The owner that a new ledger gets: the address that the chain accepted,
/// else whoever instantiates.
pub open spec fn settled_owner(sender: Seq<char>, validated: Option<Seq<char>>) -> Seq<char> {
    match validated {
        Some(address) => address,
        None => sender,
    }
}

/// The requested owner where there is one and the chain accepts it.
pub open spec fn accepted(ledger: Ledger, requested: Option<Seq<char>>) -> Option<Seq<char>> {
    match requested {
        Some(address) => if ledger_accepts(ledger, address) {
            Some(address)
        } else {
            None
        },
        None => None,
    }
}

/// What instantiating returns and what it makes of the ledger, `validated`
/// being the requested owner where the chain accepts it.
///
/// The call always succeeds.  The ledger then has the settled owner, which is
/// returned, and a counter at zero; all else is untouched.
pub open spec fn instantiate_spec(
    before: LedgerState,
    after: LedgerState,
    sender: Seq<char>,
    validated: Option<Seq<char>>,
    instantiated: Result<Config, ContractError>,
) -> bool {
    &&& instantiated matches Ok(config)
    &&& config.owner@ == settled_owner(sender, validated)
    &&& after == before.instantiated(config.owner@)
}

/// Sets the ledger up once the chain has looked at the requested owner:
/// stores `validated`, or `sender` where there is none, as the owner, and
/// starts the counter at zero.
pub fn instantiate_validated(
    ledger: &mut Ledger,
    sender: String,
    validated: Option<String>,
) -> (instantiated: Result<Config, ContractError>)
    ensures
        instantiate_spec(old(ledger)@, final(ledger)@, sender@, chars(validated), instantiated),
{
    let owner = match validated {
        Some(address) => address,
        None => sender,
    };
    // neither save can fail; the error arms are there for the types' sake
    match save_owner(ledger, &owner) {
        Ok(_) => {},
        Err(cause) => {
            return Err(ContractError::Std(cause));
        },
    }
    match save_sequence(ledger, 0) {
        Ok(_) => Ok(Config { owner }),
        Err(cause) => Err(ContractError::Std(cause)),
    }
}

/// Sets the ledger up: stores the owner and starts the counter at zero.
///
/// The owner is `msg.owner` where that is given and the chain accepts it as
/// an address, else `sender`.  An owner that is not accepted is no error.
pub fn instantiate(
    ledger: &mut Ledger,
    sender: String,
    msg: InstantiateMsg,
) -> (instantiated: Result<Config, ContractError>)
    ensures
        instantiate_spec(
            old(ledger)@,
            final(ledger)@,
            sender@,
            accepted(*old(ledger), chars(msg.owner)),
            instantiated,
        ),
{
    let validated = match msg.owner {
        Some(requested) => validate_address(ledger, requested.as_str()),
        None => None,
    };
    instantiate_validated(ledger, sender, validated)
}

/// The identifier in a response, or the error in its place.
pub open spec fn identifier(executed: Result<ExecuteResponse, ContractError>) -> Result<
    u64,
    ContractError,
> {
    match executed {
        Ok(response) => Ok(response.id()),
        Err(error) => Err(error),
    }
}

/// What `execute` returns and what it makes of the ledger: for each message
/// what the function of that name does, and a response that says which it
/// was.
pub open spec fn execute_spec(
    before: LedgerState,
    after: LedgerState,
    sender: Seq<char>,
    msg: ExecuteMsg,
    executed: Result<ExecuteResponse, ContractError>,
) -> bool {
    match msg {
        ExecuteMsg::NewEntry { description, priority } => {
            &&& create_entry_spec(
                before,
                after,
                sender,
                description@,
                priority,
                identifier(executed),
            )
            &&& executed matches Ok(response) ==> response is Created
        },
        ExecuteMsg::UpdateEntry { id, description, status, priority } => {
            &&& update_entry_spec(
                before,
                after,
                sender,
                id,
                chars(description),
                status,
                priority,
                identifier(executed),
            )
            &&& executed matches Ok(response) ==> response is Updated
        },
        ExecuteMsg::DeleteEntry { id } => {
            &&& delete_entry_spec(before, after, sender, id, identifier(executed))
            &&& executed matches Ok(response) ==> response is Deleted
        },
    }
}

/// Carries out one change on behalf of `sender`.
pub fn execute(
    ledger: &mut Ledger,
    sender: &str,
    msg: ExecuteMsg,
) -> (executed: Result<ExecuteResponse, ContractError>)
    ensures
        execute_spec(old(ledger)@, final(ledger)@, sender@, msg, executed),
{
    match msg {
        ExecuteMsg::NewEntry { description, priority } => {
            match create_entry(ledger, sender, description, priority) {
                Ok(id) => Ok(ExecuteResponse::Created { id }),
                Err(error) => Err(error),
            }
        },
        ExecuteMsg::UpdateEntry { id, description, status, priority } => {
            match update_entry(ledger, sender, id, description, status, priority) {
                Ok(id) => Ok(ExecuteResponse::Updated { id }),
                Err(error) => Err(error),
            }
        },
        ExecuteMsg::DeleteEntry { id } => {
            match delete_entry(ledger, sender, id) {
                Ok(id) => Ok(ExecuteResponse::Deleted { id }),
                Err(error) => Err(error),
            }
        },
    }
}

/// What `query` answers: for each message what the function of that name
/// answers, under the variant of that kind.
pub open spec fn query_spec(
    ledger: LedgerState,
    msg: QueryMsg,
    answered: Result<QueryResponse, ContractError>,
) -> bool {
    match msg {
        QueryMsg::QueryEntry { id } => match answered {
            Ok(QueryResponse::Entry(entry)) => query_entry_spec(
                ledger,
                id,
                Ok::<EntryResponse, ContractError>(entry),
            ),
            Ok(_) => false,
            Err(error) => query_entry_spec(ledger, id, Err::<EntryResponse, ContractError>(error)),
        },
        QueryMsg::QueryList { start_after, limit } => match answered {
            Ok(QueryResponse::List(list)) => query_list_spec(
                ledger,
                start_after,
                limit,
                Ok::<ListResponse, ContractError>(list),
            ),
            Ok(_) => false,
            Err(error) => query_list_spec(
                ledger,
                start_after,
                limit,
                Err::<ListResponse, ContractError>(error),
            ),
        },
    }
}

/// Answers one question.
pub fn query(view: &LedgerView, msg: QueryMsg) -> (answered: Result<QueryResponse, ContractError>)
    ensures
        query_spec(view@, msg, answered),
{
    match msg {
        QueryMsg::QueryEntry { id } => match query_entry(view, id) {
            Ok(entry) => Ok(QueryResponse::Entry(entry)),
            Err(error) => Err(error),
        },
        QueryMsg::QueryList { start_after, limit } => match query_list(view, start_after, limit) {
            Ok(list) => Ok(QueryResponse::List(list)),
            Err(error) => Err(error),
        },
    }
}

} // verus!
