//! The multicurrency precompile dispatcher (EVM to native).
//!
//! Per-call pipeline, stateless across calls: classify the selector,
//! authorize (pause check, then caller-allow check), charge the
//! operation's fixed cost, decode the arguments, decode the currency
//! from the callee contract's own address via the codec, execute against
//! the ledger and the address mapping, and hand back the result or a
//! typed revert. A failed call leaves the ledger exactly as it was.

use core::marker::PhantomData;

use vstd::prelude::*;

use crate::currency::{decode_evm_address, decode_spec};
use crate::errors::{CallError, LedgerError};
use crate::evm::EvmAddress;
use crate::ledger::Ledger;
use crate::limits::{erc20_cost, erc20_cost_spec, Budget, Erc20Operation};
use crate::support::{AddressMapping, Erc20InfoMapping, PrecompileCallerFilter, PrecompilePauseFilter};

verus! {

/// A 256-bit unsigned integer as it arrives from the EVM word encoding,
/// split into two big-endian 128-bit halves.
#[derive(Clone, Copy, Debug, PartialEq, Eq, Structural)]
pub struct Uint256 {
    /// Most significant 128 bits.
    pub high: u128,
    /// Least significant 128 bits.
    pub low: u128,
}

impl Uint256 {
    /// Builds a value from its two halves.
    pub fn new(high: u128, low: u128) -> (r: Self)
        ensures
            r.high == high,
            r.low == low,
    {
        Uint256 { high, low }
    }

    /// True when the value fits the native balance width.
    pub open spec fn fits_balance(self) -> bool {
        self.high == 0
    }

    /// Range-checks the value against the native balance width: the low
    /// half when the high half is zero, none otherwise — never a silent
    /// truncation.
    pub fn try_into_balance(&self) -> (r: Option<u128>)
        ensures
            self.fits_balance() ==> r == Some(self.low),
            !self.fits_balance() ==> r is None,
    {
        if self.high == 0 {
            Some(self.low)
        } else {
            None
        }
    }
}

/// Identity of one precompile invocation: the callee contract whose own
/// address encodes the currency, and the caller the allow gate judges.
#[derive(Debug)]
pub struct CallContext {
    /// The invoked contract's own address.
    pub address: EvmAddress,
    /// The caller, as the message sender.
    pub caller: EvmAddress,
}

impl CallContext {
    /// Both addresses are well-formed.
    pub open spec fn wf(&self) -> bool {
        self.address.wf() && self.caller.wf()
    }
}

/// The closed dispatch table: every supported operation as a variant
/// with its decoded arguments, and one variant for any call data whose
/// selector matches no supported operation.
#[derive(Debug)]
pub enum Call {
    Name,
    Symbol,
    Decimals,
    TotalIssuance,
    BalanceOf { who: EvmAddress },
    Transfer { from: EvmAddress, to: EvmAddress, amount: Uint256 },
    Unsupported,
}

impl Call {
    /// Argument addresses are well-formed.
    pub open spec fn wf(&self) -> bool {
        match self {
            Call::BalanceOf { who } => who.wf(),
            Call::Transfer { from, to, amount } => from.wf() && to.wf(),
            _ => true,
        }
    }

    /// The cost-table operation of a supported call.
    pub open spec fn operation_spec(&self) -> Option<Erc20Operation> {
        match self {
            Call::Name => Some(Erc20Operation::Name),
            Call::Symbol => Some(Erc20Operation::Symbol),
            Call::Decimals => Some(Erc20Operation::Decimals),
            Call::TotalIssuance => Some(Erc20Operation::TotalSupply),
            Call::BalanceOf { .. } => Some(Erc20Operation::BalanceOf),
            Call::Transfer { .. } => Some(Erc20Operation::Transfer),
            Call::Unsupported => None,
        }
    }

    /// Classifies the call for the cost table; none for an unsupported
    /// one.
    pub fn operation(&self) -> (r: Option<Erc20Operation>)
        ensures
            r == self.operation_spec(),
    {
        match self {
            Call::Name => Some(Erc20Operation::Name),
            Call::Symbol => Some(Erc20Operation::Symbol),
            Call::Decimals => Some(Erc20Operation::Decimals),
            Call::TotalIssuance => Some(Erc20Operation::TotalSupply),
            Call::BalanceOf { .. } => Some(Erc20Operation::BalanceOf),
            Call::Transfer { .. } => Some(Erc20Operation::Transfer),
            Call::Unsupported => None,
        }
    }
}

/// A successfully executed operation's result.
#[derive(Debug, PartialEq, Eq)]
pub enum CallOutput {
    /// UTF-8 bytes: a name or a symbol.
    Bytes(Vec<u8>),
    /// A decimal count.
    Decimals(u8),
    /// An issuance or a balance.
    Balance(u128),
    /// Acknowledgement of a transfer.
    Accepted(bool),
}

/// The multicurrency precompile over its four collaborators: the
/// metadata registry, the address mapping, and the two access gates.
pub struct MultiCurrencyPrecompile<M, A, CF, PF> {
    _metadata: PhantomData<M>,
    _address_mapping: PhantomData<A>,
    _caller_filter: PhantomData<CF>,
    _pause_filter: PhantomData<PF>,
}

impl<
    M: Erc20InfoMapping,
    A: AddressMapping,
    CF: PrecompileCallerFilter,
    PF: PrecompilePauseFilter,
> MultiCurrencyPrecompile<M, A, CF, PF> {
    /// Reads the decoded currency's name from the metadata registry;
    /// `InvalidCurrency` when the decode or the lookup fails.
    pub fn name(context: &CallContext, metadata: &M) -> (r: Result<Vec<u8>, CallError>)
        requires
            context.wf(),
        ensures
            ({
                let cid = decode_spec(context.address@);
                &&& cid is None ==> r == Err::<Vec<u8>, CallError>(CallError::InvalidCurrency)
                &&& cid matches Some(c) ==> match metadata.name_spec(c) {
                    Option::None => r == Err::<Vec<u8>, CallError>(CallError::InvalidCurrency),
                    Option::Some(n) => r matches Ok(v) && v@ == n,
                }
            }),
    {
        let currency_id = match decode_evm_address(&context.address) {
            Some(c) => c,
            None => {
                return Err(CallError::InvalidCurrency);
            }
        };
        match metadata.name(&currency_id) {
            Some(v) => Ok(v),
            None => Err(CallError::InvalidCurrency),
        }
    }

    /// Reads the decoded currency's symbol from the metadata registry;
    /// `InvalidCurrency` when the decode or the lookup fails.
    pub fn symbol(context: &CallContext, metadata: &M) -> (r: Result<Vec<u8>, CallError>)
        requires
            context.wf(),
        ensures
            ({
                let cid = decode_spec(context.address@);
                &&& cid is None ==> r == Err::<Vec<u8>, CallError>(CallError::InvalidCurrency)
                &&& cid matches Some(c) ==> match metadata.symbol_spec(c) {
                    Option::None => r == Err::<Vec<u8>, CallError>(CallError::InvalidCurrency),
                    Option::Some(n) => r matches Ok(v) && v@ == n,
                }
            }),
    {
        let currency_id = match decode_evm_address(&context.address) {
            Some(c) => c,
            None => {
                return Err(CallError::InvalidCurrency);
            }
        };
        match metadata.symbol(&currency_id) {
            Some(v) => Ok(v),
            None => Err(CallError::InvalidCurrency),
        }
    }

    /// Reads the decoded currency's decimal count from the metadata
    /// registry; `InvalidCurrency` when the decode or the lookup fails.
    pub fn decimals(context: &CallContext, metadata: &M) -> (r: Result<u8, CallError>)
        requires
            context.wf(),
        ensures
            ({
                let cid = decode_spec(context.address@);
                &&& cid is None ==> r == Err::<u8, CallError>(CallError::InvalidCurrency)
                &&& cid matches Some(c) ==> match metadata.decimals_spec(c) {
                    Option::None => r == Err::<u8, CallError>(CallError::InvalidCurrency),
                    Option::Some(d) => r == Ok::<u8, CallError>(d),
                }
            }),
    {
        let currency_id = match decode_evm_address(&context.address) {
            Some(c) => c,
            None => {
                return Err(CallError::InvalidCurrency);
            }
        };
        match metadata.decimals(&currency_id) {
            Some(d) => Ok(d),
            None => Err(CallError::InvalidCurrency),
        }
    }

    /// Reads the decoded currency's aggregate supply from the ledger.
    pub fn total_issuance(context: &CallContext, ledger: &Ledger) -> (r: Result<u128, CallError>)
        requires
            context.wf(),
        ensures
            ({
                let cid = decode_spec(context.address@);
                &&& cid is None ==> r == Err::<u128, CallError>(CallError::InvalidCurrency)
                &&& cid matches Some(c) ==> r == Ok::<u128, CallError>(ledger.issuance_spec(c))
            }),
    {
        let currency_id = match decode_evm_address(&context.address) {
            Some(c) => c,
            None => {
                return Err(CallError::InvalidCurrency);
            }
        };
        Ok(ledger.total_issuance(&currency_id))
    }

    /// Maps the queried EVM address to its native account and reads its
    /// total balance of the decoded currency; the decode failure is
    /// reported before any ledger read.
    pub fn balance(context: &CallContext, who: &EvmAddress, ledger: &Ledger) -> (r: Result<
        u128,
        CallError,
    >)
        requires
            context.wf(),
            who.wf(),
        ensures
            ({
                let cid = decode_spec(context.address@);
                &&& cid is None ==> r == Err::<u128, CallError>(CallError::InvalidCurrency)
                &&& cid matches Some(c) ==> r == Ok::<u128, CallError>(
                    ledger.balance_of_spec(c, A::account_of(who@)),
                )
            }),
    {
        let currency_id = match decode_evm_address(&context.address) {
            Some(c) => c,
            None => {
                return Err(CallError::InvalidCurrency);
            }
        };
        let who_account = A::get_account_id(who);
        Ok(ledger.total_balance(&currency_id, who_account))
    }

    /// Maps both EVM addresses to native accounts and instructs the
    /// ledger to move the amount of the decoded currency. The amount is
    /// range-checked against the native balance width before anything
    /// reaches the ledger; a ledger rejection surfaces with its reason
    /// and no balance changed.
    pub fn transfer(
        context: &CallContext,
        from: &EvmAddress,
        to: &EvmAddress,
        amount: &Uint256,
        ledger: &mut Ledger,
    ) -> (r: Result<bool, CallError>)
        requires
            context.wf(),
            from.wf(),
            to.wf(),
        ensures
            ({
                let cid = decode_spec(context.address@);
                &&& !amount.fits_balance() ==> r == Err::<bool, CallError>(CallError::InvalidAmount)
                    && final(ledger).same_state(*old(ledger))
                &&& amount.fits_balance() && cid is None ==> r == Err::<bool, CallError>(
                    CallError::InvalidCurrency,
                ) && final(ledger).same_state(*old(ledger))
                &&& cid matches Some(c) ==> amount.fits_balance() ==> ({
                    let from_account = A::account_of(from@);
                    let to_account = A::account_of(to@);
                    let bf = old(ledger).balance_of_spec(c, from_account);
                    let bt = old(ledger).balance_of_spec(c, to_account);
                    &&& bf < amount.low ==> r == Err::<bool, CallError>(
                        CallError::LedgerFailure(LedgerError::InsufficientBalance),
                    ) && final(ledger).same_state(*old(ledger))
                    &&& bf >= amount.low && from_account == to_account ==> r == Ok::<
                        bool,
                        CallError,
                    >(true) && final(ledger).same_state(*old(ledger))
                    &&& bf >= amount.low && from_account != to_account && bt + amount.low
                        > u128::MAX ==> r == Err::<bool, CallError>(
                        CallError::LedgerFailure(LedgerError::Overflow),
                    ) && final(ledger).same_state(*old(ledger))
                    &&& bf >= amount.low && from_account != to_account && bt + amount.low
                        <= u128::MAX ==> {
                        &&& r == Ok::<bool, CallError>(true)
                        &&& final(ledger).balance_of_spec(c, from_account) == bf - amount.low
                        &&& final(ledger).balance_of_spec(c, to_account) == bt + amount.low
                        &&& forall|c2: crate::currency::CurrencyIdView, a2: crate::ledger::AccountId|
                            !(c2 == c && (a2 == from_account || a2 == to_account))
                                ==> #[trigger] final(ledger).balance_of_spec(c2, a2)
                                == old(ledger).balance_of_spec(c2, a2)
                        &&& forall|c2: crate::currency::CurrencyIdView|
                            #[trigger] final(ledger).issuance_spec(c2)
                                == old(ledger).issuance_spec(c2)
                    }
                })
            }),
    {
        let value = match amount.try_into_balance() {
            Some(v) => v,
            None => {
                return Err(CallError::InvalidAmount);
            }
        };
        let currency_id = match decode_evm_address(&context.address) {
            Some(c) => c,
            None => {
                return Err(CallError::InvalidCurrency);
            }
        };
        let from_account = A::get_account_id(from);
        let to_account = A::get_account_id(to);
        match ledger.transfer(&currency_id, from_account, to_account, value) {
            Ok(()) => Ok(true),
            Err(e) => Err(CallError::LedgerFailure(e)),
        }
    }

    /// Runs the full per-call pipeline on one decoded call.
    ///
    /// An unrecognized selector is rejected first. A paused address then
    /// rejects every supported call before any work runs, so no ledger
    /// access occurs for any caller or selector; a disallowed caller is
    /// rejected with no state change and no cost charged; the fixed cost
    /// is debited before the operation's work, and a budget that cannot
    /// cover it is a hard stop. Every failure leaves the ledger exactly
    /// as it was.
    pub fn dispatch(
        context: &CallContext,
        call: &Call,
        metadata: &M,
        ledger: &mut Ledger,
        budget: &mut Budget,
    ) -> (r: Result<CallOutput, CallError>)
        requires
            context.wf(),
            call.wf(),
        ensures
            ({
                let paused = PF::paused_spec(context.address@);
                let allowed = CF::allowed_spec(context.caller@);
                &&& *call matches Call::Unsupported ==> r == Err::<CallOutput, CallError>(
                    CallError::UnsupportedOperation,
                ) && final(ledger).same_state(*old(ledger)) && *final(budget) == *old(budget)
                &&& !(*call matches Call::Unsupported) && paused ==> r == Err::<
                    CallOutput,
                    CallError,
                >(CallError::Paused) && final(ledger).same_state(*old(ledger)) && *final(budget)
                    == *old(budget)
                &&& !(*call matches Call::Unsupported) && !paused && !allowed ==> r == Err::<
                    CallOutput,
                    CallError,
                >(CallError::Unauthorized) && final(ledger).same_state(*old(ledger))
                    && *final(budget) == *old(budget)
            }),
            ({
                let gated = !(*call matches Call::Unsupported) && !PF::paused_spec(context.address@)
                    && CF::allowed_spec(context.caller@);
                let cost = erc20_cost_spec(call.operation_spec().unwrap());
                &&& gated && !old(budget).covers(cost) ==> r == Err::<CallOutput, CallError>(
                    CallError::OutOfResources,
                ) && final(ledger).same_state(*old(ledger)) && *final(budget) == *old(budget)
                &&& gated && old(budget).covers(cost) ==> final(budget).gas == old(budget).gas
                    - cost.gas && final(budget).storage == old(budget).storage - cost.storage
            }),
            ({
                let gated = !(*call matches Call::Unsupported) && !PF::paused_spec(context.address@)
                    && CF::allowed_spec(context.caller@);
                let charged = gated && old(budget).covers(
                    erc20_cost_spec(call.operation_spec().unwrap()),
                );
                let cid = decode_spec(context.address@);
                charged ==> match *call {
                    Call::Name => {
                        &&& cid is None ==> r == Err::<CallOutput, CallError>(
                            CallError::InvalidCurrency,
                        )
                        &&& cid matches Some(c) ==> match metadata.name_spec(c) {
                            Option::None => r == Err::<CallOutput, CallError>(
                                CallError::InvalidCurrency,
                            ),
                            Option::Some(n) => r matches Ok(CallOutput::Bytes(v)) && v@ == n,
                        }
                    },
                    Call::Symbol => {
                        &&& cid is None ==> r == Err::<CallOutput, CallError>(
                            CallError::InvalidCurrency,
                        )
                        &&& cid matches Some(c) ==> match metadata.symbol_spec(c) {
                            Option::None => r == Err::<CallOutput, CallError>(
                                CallError::InvalidCurrency,
                            ),
                            Option::Some(n) => r matches Ok(CallOutput::Bytes(v)) && v@ == n,
                        }
                    },
                    Call::Decimals => {
                        &&& cid is None ==> r == Err::<CallOutput, CallError>(
                            CallError::InvalidCurrency,
                        )
                        &&& cid matches Some(c) ==> match metadata.decimals_spec(c) {
                            Option::None => r == Err::<CallOutput, CallError>(
                                CallError::InvalidCurrency,
                            ),
                            Option::Some(d) => r == Ok::<CallOutput, CallError>(
                                CallOutput::Decimals(d),
                            ),
                        }
                    },
                    Call::TotalIssuance => {
                        &&& cid is None ==> r == Err::<CallOutput, CallError>(
                            CallError::InvalidCurrency,
                        )
                        &&& cid matches Some(c) ==> r == Ok::<CallOutput, CallError>(
                            CallOutput::Balance(old(ledger).issuance_spec(c)),
                        )
                    },
                    Call::BalanceOf { who } => {
                        &&& cid is None ==> r == Err::<CallOutput, CallError>(
                            CallError::InvalidCurrency,
                        )
                        &&& cid matches Some(c) ==> r == Ok::<CallOutput, CallError>(
                            CallOutput::Balance(
                                old(ledger).balance_of_spec(c, A::account_of(who@)),
                            ),
                        )
                    },
                    Call::Transfer { from, to, amount } => {
                        &&& !amount.fits_balance() ==> r == Err::<CallOutput, CallError>(
                            CallError::InvalidAmount,
                        ) && final(ledger).same_state(*old(ledger))
                        &&& amount.fits_balance() && cid is None ==> r == Err::<
                            CallOutput,
                            CallError,
                        >(CallError::InvalidCurrency) && final(ledger).same_state(*old(ledger))
                        &&& cid matches Some(c) ==> amount.fits_balance() ==> ({
                            let from_account = A::account_of(from@);
                            let to_account = A::account_of(to@);
                            let bf = old(ledger).balance_of_spec(c, from_account);
                            let bt = old(ledger).balance_of_spec(c, to_account);
                            &&& bf < amount.low ==> r == Err::<CallOutput, CallError>(
                                CallError::LedgerFailure(LedgerError::InsufficientBalance),
                            ) && final(ledger).same_state(*old(ledger))
                            &&& bf >= amount.low && from_account == to_account ==> r == Ok::<
                                CallOutput,
                                CallError,
                            >(CallOutput::Accepted(true)) && final(ledger).same_state(*old(ledger))
                            &&& bf >= amount.low && from_account != to_account && bt + amount.low
                                > u128::MAX ==> r == Err::<CallOutput, CallError>(
                                CallError::LedgerFailure(LedgerError::Overflow),
                            ) && final(ledger).same_state(*old(ledger))
                            &&& bf >= amount.low && from_account != to_account && bt + amount.low
                                <= u128::MAX ==> {
                                &&& r == Ok::<CallOutput, CallError>(CallOutput::Accepted(true))
                                &&& final(ledger).balance_of_spec(c, from_account) == bf
                                    - amount.low
                                &&& final(ledger).balance_of_spec(c, to_account) == bt + amount.low
                                &&& forall|
                                    c2: crate::currency::CurrencyIdView,
                                    a2: crate::ledger::AccountId,
                                |
                                    !(c2 == c && (a2 == from_account || a2 == to_account))
                                        ==> #[trigger] final(ledger).balance_of_spec(c2, a2)
                                        == old(ledger).balance_of_spec(c2, a2)
                                &&& forall|c2: crate::currency::CurrencyIdView|
                                    #[trigger] final(ledger).issuance_spec(c2)
                                        == old(ledger).issuance_spec(c2)
                            }
                        })
                    },
                    Call::Unsupported => true,
                }
            }),
            !(*call matches Call::Transfer { .. }) ==> final(ledger).same_state(*old(ledger)),
    {
        let op = match call.operation() {
            Some(op) => op,
            None => {
                return Err(CallError::UnsupportedOperation);
            }
        };
        if PF::is_paused(&context.address) {
            return Err(CallError::Paused);
        }
        if !CF::is_allowed(&context.caller) {
            return Err(CallError::Unauthorized);
        }
        let cost = erc20_cost(&op);
        if !budget.charge(&cost) {
            return Err(CallError::OutOfResources);
        }
        match call {
            Call::Name => match Self::name(context, metadata) {
                Ok(v) => Ok(CallOutput::Bytes(v)),
                Err(e) => Err(e),
            },
            Call::Symbol => match Self::symbol(context, metadata) {
                Ok(v) => Ok(CallOutput::Bytes(v)),
                Err(e) => Err(e),
            },
            Call::Decimals => match Self::decimals(context, metadata) {
                Ok(d) => Ok(CallOutput::Decimals(d)),
                Err(e) => Err(e),
            },
            Call::TotalIssuance => match Self::total_issuance(context, ledger) {
                Ok(b) => Ok(CallOutput::Balance(b)),
                Err(e) => Err(e),
            },
            Call::BalanceOf { who } => match Self::balance(context, who, ledger) {
                Ok(b) => Ok(CallOutput::Balance(b)),
                Err(e) => Err(e),
            },
            Call::Transfer { from, to, amount } => match Self::transfer(
                context,
                from,
                to,
                amount,
                ledger,
            ) {
                Ok(accepted) => Ok(CallOutput::Accepted(accepted)),
                Err(e) => Err(e),
            },
            Call::Unsupported => {
                proof {
                    assert(false);
                }
                Err(CallError::UnsupportedOperation)
            }
        }
    }
}

} // verus!
