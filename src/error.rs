use vstd::prelude::*;

verus! {

/// Errors raised while validating, building or verifying a contract.
#[derive(Debug)]
pub enum ContractError {
    /// Malformed or out-of-policy contract terms.
    InvalidParameters(String),
    /// An operation was attempted on a record whose shape does not support it.
    InvalidState(String),
    /// An amount could not be represented in the signed amount domain.
    OutOfRange,
    /// A transaction could not be built, or a signature did not verify.
    DlcError(dlc::Error),
}

} // verus!
