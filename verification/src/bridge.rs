//! Native-to-EVM bridge: the symmetrical capability that lets native
//! runtime logic treat an EVM-resident ERC20-like contract as a native
//! asset.
//!
//! Every operation yields a single failure class, `BridgeUnavailable`,
//! on any error — whether the bridge is unconfigured or the underlying
//! EVM execution reverted — so native callers treat all failures
//! identically and abort the operation being serviced entirely.

use vstd::prelude::*;

use crate::errors::CallError;
use crate::evm::EvmAddress;

verus! {

/// Identity of a native-to-EVM invocation: the target contract and the
/// synthetic sender/origin presented to it (the internal-call analogue
/// of message sender and transaction origin).
#[derive(Debug)]
pub struct InvokeContext {
    /// The EVM contract being invoked.
    pub contract: EvmAddress,
    /// Similar to the message sender.
    pub sender: EvmAddress,
    /// Similar to the transaction origin.
    pub origin: EvmAddress,
}

impl InvokeContext {
    /// All three addresses are well-formed.
    pub open spec fn wf(&self) -> bool {
        self.contract.wf() && self.sender.wf() && self.origin.wf()
    }
}

/// The bridge capability. An implementation that is not configured
/// fails every operation unconditionally, which makes bridge absence an
/// explicit, testable composition state.
pub trait EVMBridge {
    /// Whether a bridge is wired up at all: an unconfigured bridge can
    /// succeed at nothing.
    spec fn configured() -> bool;

    /// Executes ERC20.name() to read the token name from the contract.
    fn name(context: &InvokeContext) -> (r: Result<Vec<u8>, CallError>)
        requires
            context.wf(),
        ensures
            !Self::configured() ==> r == Err::<Vec<u8>, CallError>(CallError::BridgeUnavailable),
            r matches Err(e) ==> e == CallError::BridgeUnavailable,
    ;

    /// Executes ERC20.symbol() to read the token symbol from the
    /// contract.
    fn symbol(context: &InvokeContext) -> (r: Result<Vec<u8>, CallError>)
        requires
            context.wf(),
        ensures
            !Self::configured() ==> r == Err::<Vec<u8>, CallError>(CallError::BridgeUnavailable),
            r matches Err(e) ==> e == CallError::BridgeUnavailable,
    ;

    /// Executes ERC20.decimals() to read the token decimals from the
    /// contract.
    fn decimals(context: &InvokeContext) -> (r: Result<u8, CallError>)
        requires
            context.wf(),
        ensures
            !Self::configured() ==> r == Err::<u8, CallError>(CallError::BridgeUnavailable),
            r matches Err(e) ==> e == CallError::BridgeUnavailable,
    ;

    /// Executes ERC20.totalSupply() to read the total supply from the
    /// contract.
    fn total_supply(context: &InvokeContext) -> (r: Result<u128, CallError>)
        requires
            context.wf(),
        ensures
            !Self::configured() ==> r == Err::<u128, CallError>(CallError::BridgeUnavailable),
            r matches Err(e) ==> e == CallError::BridgeUnavailable,
    ;

    /// Executes ERC20.balanceOf(address) to read the balance of an
    /// address from the contract.
    fn balance_of(context: &InvokeContext, address: &EvmAddress) -> (r: Result<u128, CallError>)
        requires
            context.wf(),
            address.wf(),
        ensures
            !Self::configured() ==> r == Err::<u128, CallError>(CallError::BridgeUnavailable),
            r matches Err(e) ==> e == CallError::BridgeUnavailable,
    ;

    /// Executes ERC20.transfer(address, uint256) to transfer value to
    /// the recipient.
    fn transfer(context: &InvokeContext, to: &EvmAddress, value: u128) -> (r: Result<
        (),
        CallError,
    >)
        requires
            context.wf(),
            to.wf(),
        ensures
            !Self::configured() ==> r == Err::<(), CallError>(CallError::BridgeUnavailable),
            r matches Err(e) ==> e == CallError::BridgeUnavailable,
    ;
}

/// The explicit "no bridge wired up" state: every operation fails with
/// `BridgeUnavailable`, unconditionally.
pub struct UnconfiguredBridge;

impl EVMBridge for UnconfiguredBridge {
    open spec fn configured() -> bool {
        false
    }

    fn name(context: &InvokeContext) -> (r: Result<Vec<u8>, CallError>) {
        Err(CallError::BridgeUnavailable)
    }

    fn symbol(context: &InvokeContext) -> (r: Result<Vec<u8>, CallError>) {
        Err(CallError::BridgeUnavailable)
    }

    fn decimals(context: &InvokeContext) -> (r: Result<u8, CallError>) {
        Err(CallError::BridgeUnavailable)
    }

    fn total_supply(context: &InvokeContext) -> (r: Result<u128, CallError>) {
        Err(CallError::BridgeUnavailable)
    }

    fn balance_of(context: &InvokeContext, address: &EvmAddress) -> (r: Result<u128, CallError>) {
        Err(CallError::BridgeUnavailable)
    }

    fn transfer(context: &InvokeContext, to: &EvmAddress, value: u128) -> (r: Result<
        (),
        CallError,
    >) {
        Err(CallError::BridgeUnavailable)
    }
}

} // verus!
