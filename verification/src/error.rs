use vstd::prelude::*;

verus! {

/// Every failure the swap engine can report.
///
/// `InsufficientFunds` and `WalletError` are raised before any network
/// activity; `NetworkError` and `ProtocolViolation` abort the session at the
/// offending hop; `TimelockNotYetMatured` is a deferral, not a terminal error.
#[derive(Clone, Copy, Debug, PartialEq, Eq, Structural)]
pub enum SwapError {
    /// A peer timed out or became unresponsive.
    NetworkError,
    /// A script, signature, hash, amount or lock-time from a peer does not
    /// match our own recomputation.
    ProtocolViolation,
    /// The registry cannot satisfy a hop's funding requirement, or the fee
    /// schedule would drive a hop amount negative.
    InsufficientFunds,
    /// A transaction was rejected by the network.
    BroadcastFailure,
    /// A refund was attempted before the relative lock-time elapsed.
    TimelockNotYetMatured,
    /// A wallet-side classification or bookkeeping failure.
    WalletError,
    /// A redeem script could not be built from the supplied material.
    ScriptConstruction,
}

} // verus!
