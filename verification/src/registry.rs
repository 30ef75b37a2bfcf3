//! A metadata registry backed by in-memory state: name, symbol and
//! decimals per currency, implementing the registry capability the
//! dispatcher consults. A currency the registry does not know yields
//! none, which callers must treat as "currency not found".

use vstd::prelude::*;

use crate::currency::{
    decode_evm_address, encode_evm_address, CurrencyId, CurrencyIdView,
};
use crate::evm::{copy_bytes, EvmAddress};
use crate::support::Erc20InfoMapping;

verus! {

/// Metadata of one currency: UTF-8 name and symbol bytes, and the
/// decimal count.
#[derive(Debug)]
pub struct CurrencyMetadata {
    /// UTF-8 bytes of the name.
    pub name: Vec<u8>,
    /// UTF-8 bytes of the symbol.
    pub symbol: Vec<u8>,
    /// Number of decimals.
    pub decimals: u8,
}

struct RegistryEntry {
    currency: CurrencyId,
    metadata: CurrencyMetadata,
}

spec fn entry_for(s: Seq<RegistryEntry>, c: CurrencyIdView) -> Option<RegistryEntry>
    decreases s.len(),
{
    if s.len() == 0 {
        None
    } else if s[0].currency@ == c {
        Some(s[0])
    } else {
        entry_for(s.skip(1), c)
    }
}

/// The in-memory metadata registry.
pub struct MetadataRegistry {
    entries: Vec<RegistryEntry>,
}

impl MetadataRegistry {
    /// The registered name of a currency.
    pub closed spec fn name_of(self, c: CurrencyIdView) -> Option<Seq<u8>> {
        match entry_for(self.entries@, c) {
            Some(e) => Some(e.metadata.name@),
            None => None,
        }
    }

    /// The registered symbol of a currency.
    pub closed spec fn symbol_of(self, c: CurrencyIdView) -> Option<Seq<u8>> {
        match entry_for(self.entries@, c) {
            Some(e) => Some(e.metadata.symbol@),
            None => None,
        }
    }

    /// The registered decimal count of a currency.
    pub closed spec fn decimals_of(self, c: CurrencyIdView) -> Option<u8> {
        match entry_for(self.entries@, c) {
            Some(e) => Some(e.metadata.decimals),
            None => None,
        }
    }

    /// An empty registry: no currency is known.
    pub fn new() -> (r: MetadataRegistry)
        ensures
            forall|c: CurrencyIdView| #[trigger] r.name_of(c) is None,
            forall|c: CurrencyIdView| #[trigger] r.symbol_of(c) is None,
            forall|c: CurrencyIdView| #[trigger] r.decimals_of(c) is None,
    {
        let r = MetadataRegistry { entries: Vec::new() };
        proof {
            assert forall|c: CurrencyIdView| #[trigger] r.name_of(c) is None by {
                assert(r.entries@.len() == 0);
            }
            assert forall|c: CurrencyIdView| #[trigger] r.symbol_of(c) is None by {
                assert(r.entries@.len() == 0);
            }
            assert forall|c: CurrencyIdView| #[trigger] r.decimals_of(c) is None by {
                assert(r.entries@.len() == 0);
            }
        }
        r
    }

    /// Registers (or overrides) the metadata of one currency, leaving
    /// every other currency's entries untouched.
    pub fn register(&mut self, currency_id: &CurrencyId, metadata: CurrencyMetadata)
        requires
            currency_id.wf(),
        ensures
            final(self).name_of(currency_id@) == Some(metadata.name@),
            final(self).symbol_of(currency_id@) == Some(metadata.symbol@),
            final(self).decimals_of(currency_id@) == Some(metadata.decimals),
            forall|c: CurrencyIdView|
                c != currency_id@ ==> #[trigger] final(self).name_of(c) == old(self).name_of(c),
            forall|c: CurrencyIdView|
                c != currency_id@ ==> #[trigger] final(self).symbol_of(c) == old(self).symbol_of(c),
            forall|c: CurrencyIdView|
                c != currency_id@ ==> #[trigger] final(self).decimals_of(c) == old(
                    self,
                ).decimals_of(c),
    {
        let entry = RegistryEntry { currency: currency_id.clone(), metadata };
        self.entries.insert(0, entry);
        proof {
            assert(self.entries@[0] == entry);
            assert(self.entries@.skip(1) =~= old(self).entries@);
            assert forall|c: CurrencyIdView| c != currency_id@ implies #[trigger] entry_for(
                self.entries@,
                c,
            ) == entry_for(old(self).entries@, c) by {
                assert(entry.currency@ != c);
            }
        }
    }

    /// Finds the index of a currency's entry.
    fn find(&self, currency_id: &CurrencyId) -> (r: Option<usize>)
        ensures
            match r {
                Some(i) => i < self.entries@.len() && entry_for(self.entries@, currency_id@)
                    == Some(self.entries@[i as int]),
                None => entry_for(self.entries@, currency_id@) is None,
            },
    {
        let n = self.entries.len();
        let mut i: usize = 0;
        proof {
            assert(self.entries@.skip(0) =~= self.entries@);
        }
        while i < n
            invariant
                n == self.entries@.len(),
                i <= n,
                entry_for(self.entries@.skip(i as int), currency_id@) == entry_for(
                    self.entries@,
                    currency_id@,
                ),
            decreases n - i,
        {
            proof {
                assert(self.entries@.skip(i as int)[0] == self.entries@[i as int]);
            }
            if self.entries[i].currency == *currency_id {
                return Some(i);
            }
            proof {
                assert(self.entries@.skip(i as int).skip(1) =~= self.entries@.skip(i as int + 1));
            }
            i += 1;
        }
        proof {
            assert(self.entries@.skip(n as int) =~= Seq::<RegistryEntry>::empty());
        }
        None
    }
}

impl Erc20InfoMapping for MetadataRegistry {
    open spec fn name_spec(&self, c: CurrencyIdView) -> Option<Seq<u8>> {
        self.name_of(c)
    }

    open spec fn symbol_spec(&self, c: CurrencyIdView) -> Option<Seq<u8>> {
        self.symbol_of(c)
    }

    open spec fn decimals_spec(&self, c: CurrencyIdView) -> Option<u8> {
        self.decimals_of(c)
    }

    fn name(&self, currency_id: &CurrencyId) -> (r: Option<Vec<u8>>) {
        match self.find(currency_id) {
            Some(i) => Some(copy_bytes(&self.entries[i].metadata.name)),
            None => None,
        }
    }

    fn symbol(&self, currency_id: &CurrencyId) -> (r: Option<Vec<u8>>) {
        match self.find(currency_id) {
            Some(i) => Some(copy_bytes(&self.entries[i].metadata.symbol)),
            None => None,
        }
    }

    fn decimals(&self, currency_id: &CurrencyId) -> (r: Option<u8>) {
        match self.find(currency_id) {
            Some(i) => Some(self.entries[i].metadata.decimals),
            None => None,
        }
    }

    fn encode_evm_address(&self, v: &CurrencyId) -> (r: Option<EvmAddress>) {
        Some(encode_evm_address(v))
    }

    fn decode_evm_address(&self, v: &EvmAddress) -> (r: Option<CurrencyId>) {
        decode_evm_address(v)
    }
}

} // verus!
