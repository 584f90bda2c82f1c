//! Typed failures returned by the ledger's operations.
use vstd::prelude::*;

verus! {

/// Every failure an operation can report. Validation is fully front-loaded:
/// when an error is returned, no state change and no outbound call occurred.
#[derive(Debug, Clone, Copy, PartialEq, Eq, Structural)]
pub enum ContractError {
    /// The caller of an owner-only operation is not the owner.
    Unauthorized,
    /// The global supply ceiling has already been reached.
    MintEnded,
    /// The participant's quota has already been reached.
    MintExceeded,
    /// A configuration field required for the operation was never set.
    ConfigurationMissing,
    /// A queried participant or record does not exist.
    NotFound,
    /// An input fails basic shape validation.
    Malformed,
}

} // verus!
