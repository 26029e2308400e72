//! How a call on the ledger can fail.
use vstd::prelude::*;

verus! {

/// `cosmwasm_std::StdError`, carried through untouched: nothing in the ledger
/// looks inside one.
#[verifier::external_type_specification]
#[verifier::external_body]
pub struct ExStdError(cosmwasm_std::StdError);

/// Why a call on the ledger failed.
#[derive(Debug, PartialEq)]
pub enum ContractError {
    /// Storage could not give or take a value.
    Std(cosmwasm_std::StdError),
    /// The caller is not the owner.
    Unauthorized,
    /// No entry is stored under the identifier.
    NotFound,
    /// The record stored under the identifier names no status or no priority.
    Corrupt,
    /// Every identifier has been handed out.
    SequenceExhausted,
}

} // verus!
