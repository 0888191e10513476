use vstd::prelude::*;

verus! {

/// Every way a bridge transition can fail. A failed transition leaves the
/// bridge state exactly as it was: there is no partial mutation.
#[derive(Clone, Copy, Debug, PartialEq, Eq, Structural)]
pub enum BridgeError {
    /// The source-chain transaction identifier was already credited.
    AlreadyProcessed,
    /// The amount was zero.
    InvalidAmount,
    /// The withdrawal destination does not match the source chain's
    /// address format (`0x` prefix, 42 characters total).
    InvalidAddress,
    /// The source-chain transaction identifier was empty.
    InvalidTxHash,
    /// Crediting or burning would overflow a 64-bit accumulator.
    Overflow,
    /// The replay registry has reached its configured capacity.
    RegistryFull,
    /// `initialize` was called on a bridge that already holds state.
    AlreadyInitialized,
    /// An operation was attempted before `initialize`.
    NotInitialized,
}

} // verus!
