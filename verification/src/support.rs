//! Capability contracts of the dispatcher's collaborators: the access
//! gates, the EVM-address/native-account mapping, and the currency
//! metadata registry. Runtimes implement these traits; the dispatcher is
//! verified against their contracts alone.

use vstd::prelude::*;

use crate::currency::{decode_spec, encode_spec, CurrencyId, CurrencyIdView};
use crate::evm::EvmAddress;
use crate::ledger::AccountId;

verus! {

/// Caller-allow gate: a pure predicate on the caller address, consulted
/// before any privileged logic runs.
pub trait PrecompileCallerFilter {
    /// The policy: which callers are allowed.
    spec fn allowed_spec(caller: Seq<u8>) -> bool;

    /// Returns true exactly when the call of an EVM precompile contract
    /// by this caller is allowed.
    fn is_allowed(caller: &EvmAddress) -> (r: bool)
        requires
            caller.wf(),
        ensures
            r == Self::allowed_spec(caller@),
    ;
}

/// Pause gate: a pure predicate on the precompile address; a paused
/// address rejects all calls, for any caller or selector.
pub trait PrecompilePauseFilter {
    /// The policy: which precompile addresses are paused.
    spec fn paused_spec(address: Seq<u8>) -> bool;

    /// Returns true exactly when the EVM precompile at this address is
    /// paused.
    fn is_paused(address: &EvmAddress) -> (r: bool)
        requires
            address.wf(),
        ensures
            r == Self::paused_spec(address@),
    ;
}

/// Mapping between EVM addresses and native accounts.
pub trait AddressMapping {
    /// The account every EVM address maps to (created on first use, so
    /// total).
    spec fn account_of(evm: Seq<u8>) -> AccountId;

    /// The EVM address associated with an account, where one exists.
    spec fn evm_address_of(account_id: AccountId) -> Option<Seq<u8>>;

    /// The default EVM address derived from an account.
    spec fn default_evm_address_of(account_id: AccountId) -> Seq<u8>;

    /// True when the account is associated with the address.
    spec fn linked_spec(account_id: AccountId, evm: Seq<u8>) -> bool;

    /// Returns the account used to generate the given EVM address.
    fn get_account_id(evm: &EvmAddress) -> (r: AccountId)
        requires
            evm.wf(),
        ensures
            r == Self::account_of(evm@),
    ;

    /// Returns the EVM address associated with an account, or none where
    /// no association exists.
    fn get_evm_address(account_id: AccountId) -> (r: Option<EvmAddress>)
        ensures
            match r {
                Some(a) => a.wf() && Self::evm_address_of(account_id) == Some(a@),
                None => Self::evm_address_of(account_id) is None,
            },
    ;

    /// Returns the associated EVM address, falling back to the default
    /// one where no association exists yet.
    fn get_or_create_evm_address(account_id: AccountId) -> (r: EvmAddress)
        ensures
            r.wf(),
            Self::evm_address_of(account_id) matches Some(a) ==> r@ == a,
            Self::evm_address_of(account_id) is None ==> r@ == Self::default_evm_address_of(
                account_id,
            ),
    ;

    /// Returns the default EVM address of an account.
    fn get_default_evm_address(account_id: AccountId) -> (r: EvmAddress)
        ensures
            r.wf(),
            r@ == Self::default_evm_address_of(account_id),
    ;

    /// Returns true when the account is associated with the address.
    fn is_linked(account_id: AccountId, evm: &EvmAddress) -> (r: bool)
        requires
            evm.wf(),
        ensures
            r == Self::linked_spec(account_id, evm@),
    ;
}

/// Currency metadata registry: name, symbol and decimals per currency,
/// and the registry-aware face of the currency-id/address codec. Where
/// the registry answers an encode or decode request at all, it must
/// agree with the pure codec.
pub trait Erc20InfoMapping {
    /// The registered name, where the currency is known.
    spec fn name_spec(&self, c: CurrencyIdView) -> Option<Seq<u8>>;

    /// The registered symbol, where the currency is known.
    spec fn symbol_spec(&self, c: CurrencyIdView) -> Option<Seq<u8>>;

    /// The registered decimal count, where the currency is known.
    spec fn decimals_spec(&self, c: CurrencyIdView) -> Option<u8>;

    /// Returns the name associated with a currency.
    fn name(&self, currency_id: &CurrencyId) -> (r: Option<Vec<u8>>)
        requires
            currency_id.wf(),
        ensures
            match r {
                Some(v) => self.name_spec(currency_id@) == Some(v@),
                None => self.name_spec(currency_id@) is None,
            },
    ;

    /// Returns the symbol associated with a currency.
    fn symbol(&self, currency_id: &CurrencyId) -> (r: Option<Vec<u8>>)
        requires
            currency_id.wf(),
        ensures
            match r {
                Some(v) => self.symbol_spec(currency_id@) == Some(v@),
                None => self.symbol_spec(currency_id@) is None,
            },
    ;

    /// Returns the decimals associated with a currency.
    fn decimals(&self, currency_id: &CurrencyId) -> (r: Option<u8>)
        requires
            currency_id.wf(),
        ensures
            r == self.decimals_spec(currency_id@),
    ;

    /// Encodes a currency to its EVM address; where it answers, the
    /// address is the codec's encoding.
    fn encode_evm_address(&self, v: &CurrencyId) -> (r: Option<EvmAddress>)
        requires
            v.wf(),
        ensures
            r matches Some(a) ==> a.wf() && a@ == encode_spec(v@),
    ;

    /// Decodes an EVM address to a currency; where it answers, the
    /// currency is the codec's decoding, and where the codec rejects the
    /// address, so does the registry.
    fn decode_evm_address(&self, v: &EvmAddress) -> (r: Option<CurrencyId>)
        requires
            v.wf(),
        ensures
            r matches Some(c) ==> c.wf() && decode_spec(v@) == Some(c@),
            decode_spec(v@) is None ==> r is None,
    ;
}

/// The constant caller policy that admits every caller.
pub struct OpenCallerFilter;

impl PrecompileCallerFilter for OpenCallerFilter {
    open spec fn allowed_spec(caller: Seq<u8>) -> bool {
        true
    }

    fn is_allowed(caller: &EvmAddress) -> (r: bool) {
        true
    }
}

/// The constant caller policy that rejects every caller.
pub struct ClosedCallerFilter;

impl PrecompileCallerFilter for ClosedCallerFilter {
    open spec fn allowed_spec(caller: Seq<u8>) -> bool {
        false
    }

    fn is_allowed(caller: &EvmAddress) -> (r: bool) {
        false
    }
}

/// The constant pause policy under which nothing is paused.
pub struct NeverPausedFilter;

impl PrecompilePauseFilter for NeverPausedFilter {
    open spec fn paused_spec(address: Seq<u8>) -> bool {
        false
    }

    fn is_paused(address: &EvmAddress) -> (r: bool) {
        false
    }
}

/// The constant pause policy under which everything is paused.
pub struct AlwaysPausedFilter;

impl PrecompilePauseFilter for AlwaysPausedFilter {
    open spec fn paused_spec(address: Seq<u8>) -> bool {
        true
    }

    fn is_paused(address: &EvmAddress) -> (r: bool) {
        true
    }
}

/// The big-endian value of a byte sequence.
pub open spec fn be_value(s: Seq<u8>) -> int
    decreases s.len(),
{
    if s.len() == 0 {
        0
    } else {
        256 * be_value(s.drop_last()) + s.last()
    }
}

/// 256 to the given power.
pub open spec fn pow256(n: nat) -> int
    decreases n,
{
    if n == 0 {
        1int
    } else {
        256 * pow256((n - 1) as nat)
    }
}

proof fn lemma_be_value_bound(s: Seq<u8>)
    ensures
        0 <= be_value(s) < pow256(s.len()),
    decreases s.len(),
{
    if s.len() > 0 {
        lemma_be_value_bound(s.drop_last());
    }
}

proof fn lemma_pow256_values()
    ensures
        pow256(7) == 0x100000000000000,
        pow256(8) == 0x10000000000000000,
{
    assert(pow256(0) == 1);
    assert(pow256(1) == 0x100);
    assert(pow256(2) == 0x10000);
    assert(pow256(3) == 0x1000000);
    assert(pow256(4) == 0x100000000);
    assert(pow256(5) == 0x10000000000);
    assert(pow256(6) == 0x1000000000000);
    assert(pow256(7) == 0x100000000000000);
    assert(pow256(8) == 0x10000000000000000);
}

/// The stateless address mapping that folds an EVM address to the
/// big-endian value of its last eight bytes, and derives the default
/// address by writing the account back into those bytes under a zero
/// prefix. It keeps no association table, so no account is ever linked.
pub struct TruncatedAddressMapping;

impl AddressMapping for TruncatedAddressMapping {
    open spec fn account_of(evm: Seq<u8>) -> AccountId {
        be_value(evm.skip(12)) as AccountId
    }

    open spec fn evm_address_of(account_id: AccountId) -> Option<Seq<u8>> {
        None
    }

    open spec fn default_evm_address_of(account_id: AccountId) -> Seq<u8> {
        Seq::new(20, |i: int| if i < 12 { 0u8 } else { ((account_id as int / pow256((19 - i) as nat)) % 256) as u8 })
    }

    open spec fn linked_spec(account_id: AccountId, evm: Seq<u8>) -> bool {
        false
    }

    fn get_account_id(evm: &EvmAddress) -> (r: AccountId) {
        let mut account: u64 = 0;
        let mut i: usize = 12;
        proof {
            assert(evm@.skip(12).take(0) =~= Seq::<u8>::empty());
            lemma_pow256_values();
        }
        while i < 20
            invariant
                evm.wf(),
                12 <= i <= 20,
                account == be_value(evm@.skip(12).take(i - 12)),
                0 <= account < pow256((i - 12) as nat),
                pow256(7) == 0x100000000000000,
                pow256(8) == 0x10000000000000000,
            decreases 20 - i,
        {
            proof {
                lemma_be_value_bound(evm@.skip(12).take(i - 12));
                if i - 12 < 7 {
                    lemma_pow256_monotone((i - 12) as nat, 7nat);
                }
                assert(evm@.skip(12).take(i - 12 + 1).drop_last() =~= evm@.skip(12).take(i - 12));
                assert(evm@.skip(12).take(i - 12 + 1).last() == evm@[i as int]);
            }
            account = account * 256 + (evm.byte(i) as u64);
            i += 1;
        }
        proof {
            assert(evm@.skip(12).take(8) =~= evm@.skip(12));
        }
        account
    }

    fn get_evm_address(account_id: AccountId) -> (r: Option<EvmAddress>) {
        None
    }

    fn get_or_create_evm_address(account_id: AccountId) -> (r: EvmAddress) {
        Self::get_default_evm_address(account_id)
    }

    fn get_default_evm_address(account_id: AccountId) -> (r: EvmAddress) {
        let mut bytes: Vec<u8> = Vec::new();
        crate::evm::push_zeros(&mut bytes, 12);
        let mut divisor: u64 = 0x100000000000000;
        proof {
            lemma_pow256_values();
        }
        let mut i: usize = 12;
        while i < 20
            invariant
                12 <= i <= 20,
                i < 20 ==> divisor == pow256((19 - i) as nat),
                bytes@.len() == i,
                forall|j: int|
                    0 <= j < i ==> bytes@[j] == (if j < 12 {
                        0u8
                    } else {
                        ((account_id as int / pow256((19 - j) as nat)) % 256) as u8
                    }),
            decreases 20 - i,
        {
            proof {
                lemma_pow256_positive((19 - i) as nat);
            }
            let byte = ((account_id / divisor) % 256) as u8;
            bytes.push(byte);
            proof {
                if i + 1 < 20 {
                    lemma_pow256_positive((18 - i) as nat);
                    assert(pow256((19 - i) as nat) == 256 * pow256((18 - i) as nat));
                    assert((256 * pow256((18 - i) as nat)) / 256 == pow256((18 - i) as nat))
                        by (nonlinear_arith)
                        requires
                            pow256((18 - i) as nat) >= 1,
                    ;
                }
            }
            divisor = divisor / 256;
            i += 1;
        }
        proof {
            assert(bytes@ =~= Self::default_evm_address_of(account_id));
        }
        EvmAddress::from_exact(bytes)
    }

    fn is_linked(account_id: AccountId, evm: &EvmAddress) -> (r: bool) {
        false
    }
}

proof fn lemma_pow256_monotone(m: nat, n: nat)
    requires
        m <= n,
    ensures
        pow256(m) <= pow256(n),
    decreases n,
{
    if m < n {
        lemma_pow256_monotone(m, (n - 1) as nat);
        assert(pow256(n) == 256 * pow256((n - 1) as nat));
        lemma_pow256_positive((n - 1) as nat);
    }
}

proof fn lemma_pow256_positive(n: nat)
    ensures
        pow256(n) >= 1,
    decreases n,
{
    if n > 0 {
        lemma_pow256_positive((n - 1) as nat);
    }
}

} // verus!
