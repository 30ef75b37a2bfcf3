//! Currency identifiers and the deterministic currency-id/address codec.
//!
//! The encoded form is a persisted wire convention: byte 9 of the address
//! carries the variant tag, byte 19 the token index for `Token`, bytes
//! 18..20 the big-endian foreign-asset id for `ForeignAsset`; every unused
//! position is zero. An `Erc20` identifier is carried by the registered
//! contract address itself, all twenty bytes. Encoding is injective within
//! a tag, and the tags occupy disjoint byte positions, so decoding is
//! exact: `decode` classifies by the tag byte and returns none for an
//! unrecognized or malformed tag. A none result is the sole
//! "currency not found" signal.

use vstd::arithmetic::div_mod::lemma_fundamental_div_mod;
use vstd::prelude::*;

use crate::evm::{system_prefix_zero, EvmAddress, EVM_ADDRESS_LEN};

verus! {

/// Byte position of the variant tag.
pub const H160_POSITION_CURRENCY_ID_TYPE: usize = 9;

/// Byte position of the token index of a `Token` identifier.
pub const H160_POSITION_TOKEN: usize = 19;

/// First byte of the big-endian foreign-asset id of a `ForeignAsset`
/// identifier; the id occupies this byte and the following one.
pub const H160_POSITION_FOREIGN_ASSET: usize = 18;

/// Tag byte of the `Token` variant.
pub const TOKEN_TAG: u8 = 1;

/// Tag byte of the `ForeignAsset` variant. The values between the two
/// tags are reserved for further variants (a share-pair variant and the
/// like) without breaking the scheme.
pub const FOREIGN_ASSET_TAG: u8 = 5;

/// Identifier of a native multi-asset ledger's asset.
#[derive(Debug)]
pub enum CurrencyId {
    /// A native token, by index.
    Token(u8),
    /// An EVM-resident ERC20 contract, by its registered address.
    Erc20(EvmAddress),
    /// A foreign asset, by id.
    ForeignAsset(u16),
}

/// Mathematical model of a `CurrencyId`: the `Erc20` address is a plain
/// byte sequence.
pub enum CurrencyIdView {
    Token(u8),
    Erc20(Seq<u8>),
    ForeignAsset(u16),
}

impl View for CurrencyId {
    type V = CurrencyIdView;

    open spec fn view(&self) -> CurrencyIdView {
        match self {
            CurrencyId::Token(t) => CurrencyIdView::Token(*t),
            CurrencyId::Erc20(a) => CurrencyIdView::Erc20(a@),
            CurrencyId::ForeignAsset(id) => CurrencyIdView::ForeignAsset(*id),
        }
    }
}

impl CurrencyId {
    /// A well-formed identifier carries a well-formed address.
    pub open spec fn wf(&self) -> bool {
        match self {
            CurrencyId::Erc20(a) => a.wf(),
            _ => true,
        }
    }
}

impl Clone for CurrencyId {
    fn clone(&self) -> (r: Self)
        ensures
            r@ == self@,
            self.wf() ==> r.wf(),
    {
        match self {
            CurrencyId::Token(t) => CurrencyId::Token(*t),
            CurrencyId::Erc20(a) => CurrencyId::Erc20(a.clone()),
            CurrencyId::ForeignAsset(id) => CurrencyId::ForeignAsset(*id),
        }
    }
}

impl PartialEq for CurrencyId {
    fn eq(&self, other: &Self) -> (r: bool) {
        match (self, other) {
            (CurrencyId::Token(a), CurrencyId::Token(b)) => *a == *b,
            (CurrencyId::Erc20(a), CurrencyId::Erc20(b)) => *a == *b,
            (CurrencyId::ForeignAsset(a), CurrencyId::ForeignAsset(b)) => *a == *b,
            _ => false,
        }
    }
}

impl vstd::std_specs::cmp::PartialEqSpecImpl for CurrencyId {
    open spec fn obeys_eq_spec() -> bool {
        true
    }

    open spec fn eq_spec(&self, other: &Self) -> bool {
        self@ == other@
    }
}

/// True of the `Token` encodings' padding: every byte between the tag and
/// the token index is zero.
pub open spec fn token_padding_zero(a: Seq<u8>) -> bool {
    forall|i: int| H160_POSITION_CURRENCY_ID_TYPE < i < H160_POSITION_TOKEN ==> a[i] == 0
}

/// True of the `ForeignAsset` encodings' padding: every byte between the
/// tag and the foreign-asset id is zero.
pub open spec fn foreign_asset_padding_zero(a: Seq<u8>) -> bool {
    forall|i: int| H160_POSITION_CURRENCY_ID_TYPE < i < H160_POSITION_FOREIGN_ASSET ==> a[i] == 0
}

/// The byte layout of an encoded currency identifier.
pub open spec fn encode_spec(c: CurrencyIdView) -> Seq<u8> {
    match c {
        CurrencyIdView::Token(t) => Seq::new(
            EVM_ADDRESS_LEN as nat,
            |i: int|
                if i == H160_POSITION_CURRENCY_ID_TYPE {
                    TOKEN_TAG
                } else if i == H160_POSITION_TOKEN {
                    t
                } else {
                    0u8
                },
        ),
        CurrencyIdView::Erc20(s) => s,
        CurrencyIdView::ForeignAsset(id) => Seq::new(
            EVM_ADDRESS_LEN as nat,
            |i: int|
                if i == H160_POSITION_CURRENCY_ID_TYPE {
                    FOREIGN_ASSET_TAG
                } else if i == H160_POSITION_FOREIGN_ASSET {
                    (id / 256) as u8
                } else if i == H160_POSITION_TOKEN {
                    (id % 256) as u8
                } else {
                    0u8
                },
        ),
    }
}

/// The classification of a twenty-byte address. An address outside the
/// zero-prefixed system space is an ERC20 contract address; inside it the
/// tag byte decides, and a recognized tag with nonzero padding is
/// malformed.
pub open spec fn decode_spec(a: Seq<u8>) -> Option<CurrencyIdView>
    recommends
        a.len() == EVM_ADDRESS_LEN,
{
    if !system_prefix_zero(a) {
        Some(CurrencyIdView::Erc20(a))
    } else if a[H160_POSITION_CURRENCY_ID_TYPE as int] == TOKEN_TAG {
        if token_padding_zero(a) {
            Some(CurrencyIdView::Token(a[H160_POSITION_TOKEN as int]))
        } else {
            None
        }
    } else if a[H160_POSITION_CURRENCY_ID_TYPE as int] == FOREIGN_ASSET_TAG {
        if foreign_asset_padding_zero(a) {
            Some(
                CurrencyIdView::ForeignAsset(
                    (a[H160_POSITION_FOREIGN_ASSET as int] * 256 + a[H160_POSITION_TOKEN as int]) as u16,
                ),
            )
        } else {
            None
        }
    } else {
        None
    }
}

/// True of the currency identifiers the codec represents: every `Token`
/// and `ForeignAsset`, and every `Erc20` whose contract address lies
/// outside the zero-prefixed system space (inside it the twenty bytes
/// would collide with the tagged encodings).
pub open spec fn representable(c: CurrencyIdView) -> bool {
    match c {
        CurrencyIdView::Erc20(s) => s.len() == EVM_ADDRESS_LEN && !system_prefix_zero(s),
        _ => true,
    }
}

/// Encodes a currency identifier into its address; total, never fails.
pub fn encode_evm_address(currency_id: &CurrencyId) -> (r: EvmAddress)
    requires
        currency_id.wf(),
    ensures
        r.wf(),
        r@ == encode_spec(currency_id@),
{
    match currency_id {
        CurrencyId::Token(t) => {
            let mut bytes: Vec<u8> = Vec::new();
            crate::evm::push_zeros(&mut bytes, 9);
            bytes.push(TOKEN_TAG);
            crate::evm::push_zeros(&mut bytes, 9);
            bytes.push(*t);
            proof {
                assert(bytes@ =~= encode_spec(currency_id@));
            }
            EvmAddress::from_exact(bytes)
        }
        CurrencyId::Erc20(a) => {
            let r = a.clone();
            r
        }
        CurrencyId::ForeignAsset(id) => {
            let mut bytes: Vec<u8> = Vec::new();
            crate::evm::push_zeros(&mut bytes, 9);
            bytes.push(FOREIGN_ASSET_TAG);
            crate::evm::push_zeros(&mut bytes, 8);
            bytes.push((*id / 256) as u8);
            bytes.push((*id % 256) as u8);
            proof {
                assert(bytes@ =~= encode_spec(currency_id@));
            }
            EvmAddress::from_exact(bytes)
        }
    }
}

/// Decodes an address back into a currency identifier; none for an
/// unrecognized or malformed tag.
pub fn decode_evm_address(address: &EvmAddress) -> (r: Option<CurrencyId>)
    requires
        address.wf(),
    ensures
        match r {
            Some(c) => c.wf() && decode_spec(address@) == Some(c@),
            None => decode_spec(address@) is None,
        },
{
    if !crate::evm::is_system_contract(address) {
        return Some(CurrencyId::Erc20(address.clone()));
    }
    let tag = address.byte(H160_POSITION_CURRENCY_ID_TYPE);
    if tag == TOKEN_TAG {
        let mut i: usize = H160_POSITION_CURRENCY_ID_TYPE + 1;
        while i < H160_POSITION_TOKEN
            invariant
                address.wf(),
                system_prefix_zero(address@),
                address@[H160_POSITION_CURRENCY_ID_TYPE as int] == TOKEN_TAG,
                H160_POSITION_CURRENCY_ID_TYPE < i <= H160_POSITION_TOKEN,
                forall|j: int| H160_POSITION_CURRENCY_ID_TYPE < j < i ==> address@[j] == 0,
            decreases H160_POSITION_TOKEN - i,
        {
            if address.byte(i) != 0 {
                proof {
                    assert(address@[i as int] != 0);
                    assert(!token_padding_zero(address@));
                }
                return None;
            }
            i += 1;
        }
        Some(CurrencyId::Token(address.byte(H160_POSITION_TOKEN)))
    } else if tag == FOREIGN_ASSET_TAG {
        let mut i: usize = H160_POSITION_CURRENCY_ID_TYPE + 1;
        while i < H160_POSITION_FOREIGN_ASSET
            invariant
                address.wf(),
                system_prefix_zero(address@),
                address@[H160_POSITION_CURRENCY_ID_TYPE as int] == FOREIGN_ASSET_TAG,
                H160_POSITION_CURRENCY_ID_TYPE < i <= H160_POSITION_FOREIGN_ASSET,
                forall|j: int| H160_POSITION_CURRENCY_ID_TYPE < j < i ==> address@[j] == 0,
            decreases H160_POSITION_FOREIGN_ASSET - i,
        {
            if address.byte(i) != 0 {
                proof {
                    assert(address@[i as int] != 0);
                    assert(!foreign_asset_padding_zero(address@));
                }
                return None;
            }
            i += 1;
        }
        let hi = address.byte(H160_POSITION_FOREIGN_ASSET);
        let lo = address.byte(H160_POSITION_TOKEN);
        Some(CurrencyId::ForeignAsset((hi as u16) * 256 + (lo as u16)))
    } else {
        None
    }
}

/// Round-trip law: decoding an encoded representable identifier yields
/// the identifier back.
pub proof fn lemma_decode_encode(c: CurrencyIdView)
    requires
        representable(c),
    ensures
        decode_spec(encode_spec(c)) == Some(c),
{
    match c {
        CurrencyIdView::Token(t) => {
            let a = encode_spec(c);
            assert(system_prefix_zero(a));
            assert(token_padding_zero(a));
        }
        CurrencyIdView::Erc20(s) => {}
        CurrencyIdView::ForeignAsset(id) => {
            let a = encode_spec(c);
            assert(system_prefix_zero(a));
            assert(foreign_asset_padding_zero(a));
            lemma_fundamental_div_mod(id as int, 256);
            assert(a[H160_POSITION_FOREIGN_ASSET as int] * 256 + a[H160_POSITION_TOKEN as int]
                == id);
        }
    }
}

/// Inverse round-trip law: whenever decoding succeeds, re-encoding the
/// result reproduces the address bit for bit.
pub proof fn lemma_encode_decode(a: Seq<u8>)
    requires
        a.len() == EVM_ADDRESS_LEN,
        decode_spec(a) is Some,
    ensures
        encode_spec(decode_spec(a).unwrap()) == a,
        representable(decode_spec(a).unwrap()),
{
    let c = decode_spec(a).unwrap();
    match c {
        CurrencyIdView::Token(t) => {
            assert(encode_spec(c) =~= a);
        }
        CurrencyIdView::Erc20(s) => {
            assert(encode_spec(c) =~= a);
        }
        CurrencyIdView::ForeignAsset(id) => {
            let hi = a[H160_POSITION_FOREIGN_ASSET as int] as int;
            let lo = a[H160_POSITION_TOKEN as int] as int;
            assert(id == hi * 256 + lo);
            assert((hi * 256 + lo) / 256 == hi && (hi * 256 + lo) % 256 == lo) by (nonlinear_arith)
                requires
                    0 <= hi < 256,
                    0 <= lo < 256,
            ;
            assert(encode_spec(c) =~= a);
        }
    }
}

/// Tag exclusivity: a zero-prefixed address whose tag byte matches no
/// recognized tag decodes to none, never to a wrong variant.
pub proof fn lemma_tag_exclusivity(a: Seq<u8>)
    requires
        a.len() == EVM_ADDRESS_LEN,
        system_prefix_zero(a),
        a[H160_POSITION_CURRENCY_ID_TYPE as int] != TOKEN_TAG,
        a[H160_POSITION_CURRENCY_ID_TYPE as int] != FOREIGN_ASSET_TAG,
    ensures
        decode_spec(a) is None,
{
}

} // verus!

