use multicurrency_bridge::limits::{
    erc20_cost, liquidation_cost, Budget, Erc20Operation, Limit, LiquidationOperation,
};

#[test]
fn cost_read_operations_are_fixed() {
    for op in [
        Erc20Operation::Name,
        Erc20Operation::Symbol,
        Erc20Operation::Decimals,
        Erc20Operation::TotalSupply,
        Erc20Operation::BalanceOf,
    ] {
        let limit = erc20_cost(&op);
        assert_eq!(limit.gas, 100_000);
        assert_eq!(limit.storage, 0);
    }
}

#[test]
fn cost_transfer_is_fixed() {
    let limit = erc20_cost(&Erc20Operation::Transfer);
    assert_eq!(limit.gas, 200_000);
    assert_eq!(limit.storage, 960);
}

#[test]
fn cost_liquidation_operations_are_fixed() {
    for op in [
        LiquidationOperation::Liquidate,
        LiquidationOperation::OnCollateralTransfer,
        LiquidationOperation::OnRepaymentRefund,
    ] {
        let limit = liquidation_cost(&op);
        assert_eq!(limit.gas, 200_000);
        assert_eq!(limit.storage, 1_000);
    }
}

#[test]
fn cost_repeated_lookups_charge_the_same_pair() {
    for op in [
        Erc20Operation::Name,
        Erc20Operation::Symbol,
        Erc20Operation::Decimals,
        Erc20Operation::TotalSupply,
        Erc20Operation::BalanceOf,
        Erc20Operation::Transfer,
    ] {
        let first = erc20_cost(&op);
        let second = erc20_cost(&op);
        assert_eq!(first, second);
    }
}

#[test]
fn limit_new_keeps_its_parts() {
    let limit = Limit::new(123, 45);
    assert_eq!(limit.gas, 123);
    assert_eq!(limit.storage, 45);
}

#[test]
fn budget_charge_debits_exactly_once() {
    let mut budget = Budget::new(500_000, 2_000);
    let limit = Limit::new(200_000, 960);
    assert!(budget.charge(&limit));
    assert_eq!(budget.gas, 300_000);
    assert_eq!(budget.storage, 1_040);
    assert!(budget.charge(&limit));
    assert_eq!(budget.gas, 100_000);
    assert_eq!(budget.storage, 80);
}

#[test]
fn budget_charge_is_a_hard_stop_when_exhausted() {
    let mut budget = Budget::new(100_000, 100);
    let limit = Limit::new(200_000, 0);
    assert!(!budget.charge(&limit));
    assert_eq!(budget.gas, 100_000);
    assert_eq!(budget.storage, 100);
    let storage_limit = Limit::new(1, 200);
    assert!(!budget.charge(&storage_limit));
    assert_eq!(budget.gas, 100_000);
    assert_eq!(budget.storage, 100);
}
