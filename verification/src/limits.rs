//! Static per-operation cost model and the per-call resource budget.
//!
//! Every operation carries a fixed (gas, storage-delta) ceiling, immutable
//! at runtime. The dispatcher debits the configured cost before performing
//! the operation's work; a charge that would drive the remaining budget
//! negative is a hard stop, never retried.

use vstd::prelude::*;

verus! {

/// Static resource ceiling of one operation.
#[derive(Clone, Copy, Debug, PartialEq, Eq, Structural)]
pub struct Limit {
    /// Gas ceiling.
    pub gas: u64,
    /// Storage-delta ceiling.
    pub storage: u32,
}

impl Limit {
    /// Builds a limit from its two ceilings.
    pub fn new(gas: u64, storage: u32) -> (r: Self)
        ensures
            r.gas == gas,
            r.storage == storage,
    {
        Limit { gas, storage }
    }
}

/// Gas cost of every read operation.
pub const READ_GAS: u64 = 100_000;

/// Gas cost of a transfer.
pub const TRANSFER_GAS: u64 = 200_000;

/// Storage delta of a transfer.
pub const TRANSFER_STORAGE: u32 = 960;

/// Gas cost of every liquidation-domain operation.
pub const LIQUIDATION_GAS: u64 = 200_000;

/// Storage delta of every liquidation-domain operation.
pub const LIQUIDATION_STORAGE: u32 = 1_000;

/// The ERC20-style operations of the dispatcher.
#[derive(Clone, Copy, Debug, PartialEq, Eq, Structural)]
pub enum Erc20Operation {
    Name,
    Symbol,
    Decimals,
    TotalSupply,
    BalanceOf,
    Transfer,
}

/// The liquidation-domain operations sharing the cost model.
#[derive(Clone, Copy, Debug, PartialEq, Eq, Structural)]
pub enum LiquidationOperation {
    Liquidate,
    OnCollateralTransfer,
    OnRepaymentRefund,
}

/// The cost table of the ERC20-style operations: every read costs
/// (100000, 0), a transfer (200000, 960).
pub open spec fn erc20_cost_spec(op: Erc20Operation) -> Limit {
    match op {
        Erc20Operation::Transfer => (Limit { gas: TRANSFER_GAS, storage: TRANSFER_STORAGE }),
        _ => (Limit { gas: READ_GAS, storage: 0u32 }),
    }
}

/// The cost table of the liquidation-domain operations: each costs
/// (200000, 1000).
pub open spec fn liquidation_cost_spec(op: LiquidationOperation) -> Limit {
    Limit { gas: LIQUIDATION_GAS, storage: LIQUIDATION_STORAGE }
}

/// Reads the fixed cost of an ERC20-style operation.
pub fn erc20_cost(op: &Erc20Operation) -> (r: Limit)
    ensures
        r == erc20_cost_spec(*op),
{
    match op {
        Erc20Operation::Transfer => Limit::new(TRANSFER_GAS, TRANSFER_STORAGE),
        _ => Limit::new(READ_GAS, 0),
    }
}

/// Reads the fixed cost of a liquidation-domain operation.
pub fn liquidation_cost(op: &LiquidationOperation) -> (r: Limit)
    ensures
        r == liquidation_cost_spec(*op),
{
    Limit::new(LIQUIDATION_GAS, LIQUIDATION_STORAGE)
}

/// Cost determinism: any two results of the cost table for the same
/// operation are the same fixed (gas, storage) pair.
pub proof fn lemma_cost_determinism(op: Erc20Operation, first: Limit, second: Limit)
    requires
        first == erc20_cost_spec(op),
        second == erc20_cost_spec(op),
    ensures
        first == second,
{
}

/// Remaining resource budget of the enclosing call.
#[derive(Clone, Copy, Debug, PartialEq, Eq, Structural)]
pub struct Budget {
    /// Gas still available.
    pub gas: u64,
    /// Storage delta still available.
    pub storage: u32,
}

impl Budget {
    /// Builds a budget from its two remaining amounts.
    pub fn new(gas: u64, storage: u32) -> (r: Self)
        ensures
            r.gas == gas,
            r.storage == storage,
    {
        Budget { gas, storage }
    }

    /// True when the budget covers the cost.
    pub open spec fn covers(self, cost: Limit) -> bool {
        self.gas >= cost.gas && self.storage >= cost.storage
    }

    /// Debits a cost from the budget: a monotonic decrement when the
    /// budget covers it, a hard stop leaving the budget untouched when
    /// it does not.
    pub fn charge(&mut self, cost: &Limit) -> (r: bool)
        ensures
            r == old(self).covers(*cost),
            r ==> final(self).gas == old(self).gas - cost.gas && final(self).storage == old(
                self,
            ).storage - cost.storage,
            !r ==> *final(self) == *old(self),
    {
        if self.gas >= cost.gas && self.storage >= cost.storage {
            self.gas = self.gas - cost.gas;
            self.storage = self.storage - cost.storage;
            true
        } else {
            false
        }
    }
}

} // verus!
