//! Failure taxonomy of the bridging layer.
//!
//! Every failure surfaces as a call-level revert with a distinguishable
//! reason; none is retried internally.

use vstd::prelude::*;

verus! {

/// Reason reported by the ledger when it rejects an operation.
#[derive(Clone, Copy, Debug, PartialEq, Eq, Structural)]
pub enum LedgerError {
    /// The debited account holds less than the requested amount.
    InsufficientBalance,
    /// Crediting the recipient would overflow the balance width.
    Overflow,
}

/// Call-level failure of the dispatcher or of the native-to-EVM bridge.
#[derive(Clone, Copy, Debug, PartialEq, Eq, Structural)]
pub enum CallError {
    /// The selector matches no supported operation.
    UnsupportedOperation,
    /// The callee address decodes to no currency, or the metadata
    /// registry knows nothing about the decoded currency.
    InvalidCurrency,
    /// The 256-bit amount does not fit the native balance width.
    InvalidAmount,
    /// The caller-allow gate rejected the caller.
    Unauthorized,
    /// The pause gate rejected the precompile address.
    Paused,
    /// Charging the operation's cost would exhaust the remaining budget.
    OutOfResources,
    /// The ledger rejected the operation, with its reason.
    LedgerFailure(LedgerError),
    /// The bridge is unconfigured, or the EVM execution reverted.
    BridgeUnavailable,
}

} // verus!
