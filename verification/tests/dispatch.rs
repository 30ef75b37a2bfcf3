use multicurrency_bridge::currency::{encode_evm_address, CurrencyId};
use multicurrency_bridge::errors::{CallError, LedgerError};
use multicurrency_bridge::evm::EvmAddress;
use multicurrency_bridge::ledger::Ledger;
use multicurrency_bridge::limits::Budget;
use multicurrency_bridge::precompile::{
    Call, CallContext, CallOutput, MultiCurrencyPrecompile, Uint256,
};
use multicurrency_bridge::registry::{CurrencyMetadata, MetadataRegistry};
use multicurrency_bridge::support::{
    AddressMapping, AlwaysPausedFilter, ClosedCallerFilter, NeverPausedFilter, OpenCallerFilter,
    TruncatedAddressMapping,
};

type Precompile = MultiCurrencyPrecompile<
    MetadataRegistry,
    TruncatedAddressMapping,
    OpenCallerFilter,
    NeverPausedFilter,
>;
type PausedPrecompile = MultiCurrencyPrecompile<
    MetadataRegistry,
    TruncatedAddressMapping,
    OpenCallerFilter,
    AlwaysPausedFilter,
>;
type GatedPrecompile = MultiCurrencyPrecompile<
    MetadataRegistry,
    TruncatedAddressMapping,
    ClosedCallerFilter,
    NeverPausedFilter,
>;

fn addr(bytes: [u8; 20]) -> EvmAddress {
    EvmAddress::new(bytes.to_vec()).unwrap()
}

fn caller() -> EvmAddress {
    addr([0x11; 20])
}

fn token_context() -> CallContext {
    CallContext {
        address: encode_evm_address(&CurrencyId::Token(0)),
        caller: caller(),
    }
}

fn undecodable_context() -> CallContext {
    let mut bytes = [0u8; 20];
    bytes[9] = 0xAA;
    CallContext {
        address: addr(bytes),
        caller: caller(),
    }
}

fn registry() -> MetadataRegistry {
    let mut r = MetadataRegistry::new();
    r.register(
        &CurrencyId::Token(0),
        CurrencyMetadata {
            name: b"Native Token".to_vec(),
            symbol: b"NTV".to_vec(),
            decimals: 18,
        },
    );
    r.register(
        &CurrencyId::ForeignAsset(7),
        CurrencyMetadata {
            name: b"Seventh Asset".to_vec(),
            symbol: b"SVN".to_vec(),
            decimals: 12,
        },
    );
    r
}

fn fresh_budget() -> Budget {
    Budget::new(1_000_000, 10_000)
}

fn account_of(bytes: [u8; 20]) -> u64 {
    TruncatedAddressMapping::get_account_id(&addr(bytes))
}

#[test]
fn dispatch_name_reads_metadata() {
    let metadata = registry();
    let mut ledger = Ledger::new();
    let mut budget = fresh_budget();
    let r = Precompile::dispatch(
        &token_context(),
        &Call::Name,
        &metadata,
        &mut ledger,
        &mut budget,
    );
    assert_eq!(r, Ok(CallOutput::Bytes(b"Native Token".to_vec())));
    assert_eq!(budget.gas, 900_000);
    assert_eq!(budget.storage, 10_000);
}

#[test]
fn dispatch_symbol_and_decimals_read_metadata() {
    let metadata = registry();
    let mut ledger = Ledger::new();
    let mut budget = fresh_budget();
    let context = token_context();
    let r = Precompile::dispatch(&context, &Call::Symbol, &metadata, &mut ledger, &mut budget);
    assert_eq!(r, Ok(CallOutput::Bytes(b"NTV".to_vec())));
    let r = Precompile::dispatch(&context, &Call::Decimals, &metadata, &mut ledger, &mut budget);
    assert_eq!(r, Ok(CallOutput::Decimals(18)));
}

#[test]
fn dispatch_unknown_currency_metadata_is_invalid_currency() {
    let metadata = registry();
    let mut ledger = Ledger::new();
    let mut budget = fresh_budget();
    let context = CallContext {
        address: encode_evm_address(&CurrencyId::Token(9)),
        caller: caller(),
    };
    let r = Precompile::dispatch(&context, &Call::Name, &metadata, &mut ledger, &mut budget);
    assert_eq!(r, Err(CallError::InvalidCurrency));
}

#[test]
fn dispatch_total_issuance_reads_ledger() {
    let metadata = registry();
    let mut ledger = Ledger::new();
    let token = CurrencyId::Token(0);
    ledger.deposit(&token, 5, 420).unwrap();
    let mut budget = fresh_budget();
    let r = Precompile::dispatch(
        &token_context(),
        &Call::TotalIssuance,
        &metadata,
        &mut ledger,
        &mut budget,
    );
    assert_eq!(r, Ok(CallOutput::Balance(420)));
}

#[test]
fn dispatch_balance_of_reads_the_mapped_account() {
    let metadata = registry();
    let mut ledger = Ledger::new();
    let token = CurrencyId::Token(0);
    let who = [0x22; 20];
    assert_eq!(account_of(who), 0x2222222222222222);
    ledger.deposit(&token, account_of(who), 77).unwrap();
    let mut budget = fresh_budget();
    let call = Call::BalanceOf { who: addr(who) };
    let r = Precompile::dispatch(&token_context(), &call, &metadata, &mut ledger, &mut budget);
    assert_eq!(r, Ok(CallOutput::Balance(77)));
}

#[test]
fn dispatch_balance_of_undecodable_address_is_invalid_currency() {
    let metadata = registry();
    let mut ledger = Ledger::new();
    let mut budget = fresh_budget();
    let call = Call::BalanceOf { who: addr([0x22; 20]) };
    let r = Precompile::dispatch(
        &undecodable_context(),
        &call,
        &metadata,
        &mut ledger,
        &mut budget,
    );
    assert_eq!(r, Err(CallError::InvalidCurrency));
}

#[test]
fn dispatch_transfer_debits_and_credits_exactly_once() {
    let metadata = registry();
    let mut ledger = Ledger::new();
    let token = CurrencyId::Token(0);
    let from = [0x22; 20];
    let to = [0x33; 20];
    ledger.deposit(&token, account_of(from), 100).unwrap();
    let mut budget = fresh_budget();
    let call = Call::Transfer {
        from: addr(from),
        to: addr(to),
        amount: Uint256::new(0, 30),
    };
    let r = Precompile::dispatch(&token_context(), &call, &metadata, &mut ledger, &mut budget);
    assert_eq!(r, Ok(CallOutput::Accepted(true)));
    assert_eq!(ledger.total_balance(&token, account_of(from)), 70);
    assert_eq!(ledger.total_balance(&token, account_of(to)), 30);
    assert_eq!(ledger.total_issuance(&token), 100);
    assert_eq!(budget.gas, 800_000);
    assert_eq!(budget.storage, 9_040);
}

#[test]
fn dispatch_transfer_insufficient_balance_is_ledger_failure() {
    let metadata = registry();
    let mut ledger = Ledger::new();
    let token = CurrencyId::Token(0);
    let from = [0x22; 20];
    let to = [0x33; 20];
    ledger.deposit(&token, account_of(from), 10).unwrap();
    let mut budget = fresh_budget();
    let call = Call::Transfer {
        from: addr(from),
        to: addr(to),
        amount: Uint256::new(0, 11),
    };
    let r = Precompile::dispatch(&token_context(), &call, &metadata, &mut ledger, &mut budget);
    assert_eq!(
        r,
        Err(CallError::LedgerFailure(LedgerError::InsufficientBalance))
    );
    assert_eq!(ledger.total_balance(&token, account_of(from)), 10);
    assert_eq!(ledger.total_balance(&token, account_of(to)), 0);
    assert_eq!(ledger.total_issuance(&token), 10);
}

#[test]
fn dispatch_transfer_oversized_amount_is_invalid_amount() {
    let metadata = registry();
    let mut ledger = Ledger::new();
    let token = CurrencyId::Token(0);
    let from = [0x22; 20];
    ledger.deposit(&token, account_of(from), 100).unwrap();
    let mut budget = fresh_budget();
    let call = Call::Transfer {
        from: addr(from),
        to: addr([0x33; 20]),
        amount: Uint256::new(1, 0),
    };
    let r = Precompile::dispatch(&token_context(), &call, &metadata, &mut ledger, &mut budget);
    assert_eq!(r, Err(CallError::InvalidAmount));
    assert_eq!(ledger.total_balance(&token, account_of(from)), 100);
    assert_eq!(ledger.total_balance(&token, account_of([0x33; 20])), 0);
}

#[test]
fn dispatch_paused_address_rejects_every_call() {
    let metadata = registry();
    let mut ledger = Ledger::new();
    let token = CurrencyId::Token(0);
    let from = [0x22; 20];
    ledger.deposit(&token, account_of(from), 100).unwrap();
    let mut budget = fresh_budget();
    let calls = [
        Call::Name,
        Call::Symbol,
        Call::Decimals,
        Call::TotalIssuance,
        Call::BalanceOf { who: addr(from) },
        Call::Transfer {
            from: addr(from),
            to: addr([0x33; 20]),
            amount: Uint256::new(0, 30),
        },
    ];
    for call in calls {
        let r = PausedPrecompile::dispatch(
            &token_context(),
            &call,
            &metadata,
            &mut ledger,
            &mut budget,
        );
        assert_eq!(r, Err(CallError::Paused));
    }
    // no ledger access happened and nothing was charged
    assert_eq!(ledger.total_balance(&token, account_of(from)), 100);
    assert_eq!(ledger.total_issuance(&token), 100);
    assert_eq!(budget.gas, 1_000_000);
    assert_eq!(budget.storage, 10_000);
}

#[test]
fn dispatch_disallowed_caller_is_rejected_without_charge() {
    let metadata = registry();
    let mut ledger = Ledger::new();
    let mut budget = fresh_budget();
    let r = GatedPrecompile::dispatch(
        &token_context(),
        &Call::Name,
        &metadata,
        &mut ledger,
        &mut budget,
    );
    assert_eq!(r, Err(CallError::Unauthorized));
    assert_eq!(budget.gas, 1_000_000);
    assert_eq!(budget.storage, 10_000);
}

#[test]
fn dispatch_exhausted_budget_is_a_hard_stop() {
    let metadata = registry();
    let mut ledger = Ledger::new();
    let token = CurrencyId::Token(0);
    let from = [0x22; 20];
    ledger.deposit(&token, account_of(from), 100).unwrap();
    let mut budget = Budget::new(150_000, 10_000);
    let call = Call::Transfer {
        from: addr(from),
        to: addr([0x33; 20]),
        amount: Uint256::new(0, 30),
    };
    let r = Precompile::dispatch(&token_context(), &call, &metadata, &mut ledger, &mut budget);
    assert_eq!(r, Err(CallError::OutOfResources));
    assert_eq!(budget.gas, 150_000);
    assert_eq!(budget.storage, 10_000);
    assert_eq!(ledger.total_balance(&token, account_of(from)), 100);
}

#[test]
fn dispatch_unsupported_selector_is_rejected_first() {
    let metadata = registry();
    let mut ledger = Ledger::new();
    let mut budget = Budget::new(0, 0);
    let r = PausedPrecompile::dispatch(
        &token_context(),
        &Call::Unsupported,
        &metadata,
        &mut ledger,
        &mut budget,
    );
    assert_eq!(r, Err(CallError::UnsupportedOperation));
    assert_eq!(budget.gas, 0);
}

#[test]
fn dispatch_erc20_mirror_context_reaches_the_ledger() {
    let metadata = registry();
    let mut contract = [0u8; 20];
    contract[0] = 0xCC;
    let erc20 = CurrencyId::Erc20(addr(contract));
    let mut ledger = Ledger::new();
    let who = [0x44; 20];
    ledger.deposit(&erc20, account_of(who), 5).unwrap();
    let mut budget = fresh_budget();
    let context = CallContext {
        address: addr(contract),
        caller: caller(),
    };
    let call = Call::BalanceOf { who: addr(who) };
    let r = Precompile::dispatch(&context, &call, &metadata, &mut ledger, &mut budget);
    assert_eq!(r, Ok(CallOutput::Balance(5)));
}

#[test]
fn uint256_range_check() {
    assert_eq!(Uint256::new(0, 7).try_into_balance(), Some(7));
    assert_eq!(Uint256::new(0, u128::MAX).try_into_balance(), Some(u128::MAX));
    assert_eq!(Uint256::new(1, 7).try_into_balance(), None);
    assert_eq!(Uint256::new(u128::MAX, 0).try_into_balance(), None);
}
