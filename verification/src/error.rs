//! The failures that the ledger's operations report.

use cosmwasm_std::StdError;
use vstd::prelude::*;

verus! {

/// The host's own error type, carried through unchanged. Nothing is known of its contents.
#[verifier::external_type_specification]
#[verifier::external_body]
pub struct ExStdError(StdError);

/// Why an operation on the ledger was refused.
#[derive(Debug, PartialEq)]
pub enum ContractError {
    /// The host refused an identity or the storage failed; the host's error is passed on as is.
    Std(StdError),
    /// The caller may not perform the operation.
    Unauthorized {},
    /// A poll was to be created with more than ten options.
    TooManyOptions {},
    /// A vote named a poll that is not in the ledger.
    PollNotFound {},
    /// A vote named a label that the poll does not offer.
    OptionNonExistent {},
}

impl ContractError {
    /// The message by which the failure is reported, for the variants that the ledger itself
    /// raises; a host error reports itself.
    pub fn message(&self) -> (text: Option<&'static str>)
        ensures
            match *self {
                ContractError::Std(_) => text is None,
                ContractError::Unauthorized {} => text == Some("Unauthorized"),
                ContractError::TooManyOptions {} => text == Some("Too many poll options"),
                ContractError::PollNotFound {} => text == Some("The Poll does not exist"),
                ContractError::OptionNonExistent {} => text == Some("The option does not exist"),
            },
    {
        match self {
            ContractError::Std(_) => None,
            ContractError::Unauthorized {} => Some("Unauthorized"),
            ContractError::TooManyOptions {} => Some("Too many poll options"),
            ContractError::PollNotFound {} => Some("The Poll does not exist"),
            ContractError::OptionNonExistent {} => Some("The option does not exist"),
        }
    }
}

} // verus!
