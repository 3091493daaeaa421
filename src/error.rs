use vstd::prelude::*;

verus! {

/// The ways a mint request, a gated setter or a saga hop can fail.
#[derive(Debug, Clone, Copy, PartialEq, Eq, Structural)]
pub enum MintError {
    /// The caller is not the identity that is allowed to make it.
    AuthorizationError,
    /// The attached payment is below the configured floor.
    InsufficientDepositError,
    /// The configured required deposit is below the mint price.
    ConfigurationError,
    /// A scheduled remote operation resolved with an error or ran out of budget.
    RemoteFailure,
    /// The read-back found no record although one was issued.
    RecordMissingError,
}

} // verus!
